use kurobako_problems::sigopt::{param_name, Name, SigoptProblemRecipe};

#[test]
fn factory_takes_default_dimension() {
    let recipe = SigoptProblemRecipe { name: Name::Sphere, dim: None, res: None, int: vec![] };
    let factory = recipe.create_factory(5);
    assert_eq!(factory.dim, 5);
    assert_eq!(factory.problem_name(), "sigopt/evalset/Sphere(dim=5)");
    let recipe = SigoptProblemRecipe { name: Name::Sphere, dim: Some(3), res: None, int: vec![] };
    assert_eq!(recipe.create_factory(5).dim, 3);
}

#[test]
fn factory_name_lists_resolution_and_integers() {
    let recipe = SigoptProblemRecipe {
        name: Name::Ackley,
        dim: Some(2),
        res: Some("0.1".to_string()),
        int: vec![0, 13],
    };
    let factory = recipe.create_factory(11);
    assert_eq!(factory.problem_name(), "sigopt/evalset/Ackley(dim=2, res=0.1, int=[0, 13])");
    assert!(factory.is_integer_dim(13));
    assert!(!factory.is_integer_dim(1));
    let problem = factory.create_problem();
    assert_eq!(problem.name, Name::Ackley);
    assert_eq!(problem.res, Some("0.1".to_string()));
}

#[test]
fn input_dimension_names() {
    assert_eq!(param_name(0), "p0");
    assert_eq!(param_name(12), "p12");
}
