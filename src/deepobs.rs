//! Problems of the DeepOBS suite: a training script run once per evaluation,
//! at the cheapest checkpoint of the schedule that the budget asks for.
use crate::domain::{
    choice_at,
    all_valid, boolean, choices, copy_domains, distinct_strings, integer, log_uniform,
    same_domains, uniform, unique_names, kind_valid, kind_view, lemma_same_kind_valid, KindView, ParamDomain, ParamValue, UNITS_PER_ONE,
};
use crate::error::Error;
use crate::invocation::{
    build_args, config_flags, config_flags_spec, config_malformed, invocation_args, mode_of,
    resolve_mode,
};
use crate::registry::{acquire_spec, registry_wf, release_spec, signature, Acquired, ProblemCache};
use crate::text::{int_text, u64_text, views};
use crate::schedule::{
    all_positive, ascending, candidates_of, descending, lemma_shrink_stops, reversed,
    select_fidelity, selected, shrink, valid_schedule, validate_schedule,
};
use vstd::prelude::*;

verus! {

/// The test problems of the DeepOBS suite.
#[allow(non_camel_case_types)]
#[derive(Debug, Clone, Copy, PartialEq, Eq, Structural)]
pub enum TestProblem {
    Cifar10_3c3d,
    Cifar10_vgg16,
    Cifar10_vgg19,
    Cifar100_3c3d,
    Cifar100_allcnnc,
    Cifar100_vgg16,
    Cifar100_vgg19,
    Cifar100_wrn404,
    Fmnist_2c2d,
    Fmnist_logreg,
    Fmnist_mlp,
    Fmnist_vae,
    Imagenet_inception_v3,
    Imagenet_vgg16,
    Imagenet_vgg19,
    Mnist_2c2d,
    Mnist_logreg,
    Mnist_mlp,
    Mnist_vae,
    Quadratic_deep,
    Svhn_3c3d,
    Svhn_wrn164,
    Tolstoi_char_rnn,
    Two_d_beale,
    Two_d_branin,
    Two_d_rosenbrock,
}

/// The name of a test problem in the suite: its variant's name in lower case.
pub open spec fn problem_name(p: TestProblem) -> Seq<char> {
    match p {
        TestProblem::Cifar10_3c3d => "cifar10_3c3d"@,
        TestProblem::Cifar10_vgg16 => "cifar10_vgg16"@,
        TestProblem::Cifar10_vgg19 => "cifar10_vgg19"@,
        TestProblem::Cifar100_3c3d => "cifar100_3c3d"@,
        TestProblem::Cifar100_allcnnc => "cifar100_allcnnc"@,
        TestProblem::Cifar100_vgg16 => "cifar100_vgg16"@,
        TestProblem::Cifar100_vgg19 => "cifar100_vgg19"@,
        TestProblem::Cifar100_wrn404 => "cifar100_wrn404"@,
        TestProblem::Fmnist_2c2d => "fmnist_2c2d"@,
        TestProblem::Fmnist_logreg => "fmnist_logreg"@,
        TestProblem::Fmnist_mlp => "fmnist_mlp"@,
        TestProblem::Fmnist_vae => "fmnist_vae"@,
        TestProblem::Imagenet_inception_v3 => "imagenet_inception_v3"@,
        TestProblem::Imagenet_vgg16 => "imagenet_vgg16"@,
        TestProblem::Imagenet_vgg19 => "imagenet_vgg19"@,
        TestProblem::Mnist_2c2d => "mnist_2c2d"@,
        TestProblem::Mnist_logreg => "mnist_logreg"@,
        TestProblem::Mnist_mlp => "mnist_mlp"@,
        TestProblem::Mnist_vae => "mnist_vae"@,
        TestProblem::Quadratic_deep => "quadratic_deep"@,
        TestProblem::Svhn_3c3d => "svhn_3c3d"@,
        TestProblem::Svhn_wrn164 => "svhn_wrn164"@,
        TestProblem::Tolstoi_char_rnn => "tolstoi_char_rnn"@,
        TestProblem::Two_d_beale => "two_d_beale"@,
        TestProblem::Two_d_branin => "two_d_branin"@,
        TestProblem::Two_d_rosenbrock => "two_d_rosenbrock"@,
    }
}

impl TestProblem {
    /// The name of the test problem in the suite.
    pub fn to_string(&self) -> (r: String)
        ensures
            r@ == problem_name(*self),
    {
        match self {
            TestProblem::Cifar10_3c3d => "cifar10_3c3d".to_string(),
            TestProblem::Cifar10_vgg16 => "cifar10_vgg16".to_string(),
            TestProblem::Cifar10_vgg19 => "cifar10_vgg19".to_string(),
            TestProblem::Cifar100_3c3d => "cifar100_3c3d".to_string(),
            TestProblem::Cifar100_allcnnc => "cifar100_allcnnc".to_string(),
            TestProblem::Cifar100_vgg16 => "cifar100_vgg16".to_string(),
            TestProblem::Cifar100_vgg19 => "cifar100_vgg19".to_string(),
            TestProblem::Cifar100_wrn404 => "cifar100_wrn404".to_string(),
            TestProblem::Fmnist_2c2d => "fmnist_2c2d".to_string(),
            TestProblem::Fmnist_logreg => "fmnist_logreg".to_string(),
            TestProblem::Fmnist_mlp => "fmnist_mlp".to_string(),
            TestProblem::Fmnist_vae => "fmnist_vae".to_string(),
            TestProblem::Imagenet_inception_v3 => "imagenet_inception_v3".to_string(),
            TestProblem::Imagenet_vgg16 => "imagenet_vgg16".to_string(),
            TestProblem::Imagenet_vgg19 => "imagenet_vgg19".to_string(),
            TestProblem::Mnist_2c2d => "mnist_2c2d".to_string(),
            TestProblem::Mnist_logreg => "mnist_logreg".to_string(),
            TestProblem::Mnist_mlp => "mnist_mlp".to_string(),
            TestProblem::Mnist_vae => "mnist_vae".to_string(),
            TestProblem::Quadratic_deep => "quadratic_deep".to_string(),
            TestProblem::Svhn_3c3d => "svhn_3c3d".to_string(),
            TestProblem::Svhn_wrn164 => "svhn_wrn164".to_string(),
            TestProblem::Tolstoi_char_rnn => "tolstoi_char_rnn".to_string(),
            TestProblem::Two_d_beale => "two_d_beale".to_string(),
            TestProblem::Two_d_branin => "two_d_branin".to_string(),
            TestProblem::Two_d_rosenbrock => "two_d_rosenbrock".to_string(),
        }
    }
}

/// The names of the training algorithms, the modes that a configuration
/// selects among.
pub open spec fn optimizer_names() -> Seq<Seq<char>> {
    seq![
        "adadelta"@,
        "adagrad"@,
        "adam"@,
        "gradient-descent"@,
        "momentum"@,
        "proximal-adagrad"@,
        "proximal-gradient-descent"@,
        "rms-prop"@,
    ]
}

proof fn lemma_optimizers_distinct(v: Seq<String>)
    requires
        views(v) == optimizer_names(),
    ensures
        distinct_strings(v),
        v.len() == 8,
{
    reveal_strlit("adadelta");
    reveal_strlit("adagrad");
    reveal_strlit("adam");
    reveal_strlit("gradient-descent");
    reveal_strlit("momentum");
    reveal_strlit("proximal-adagrad");
    reveal_strlit("proximal-gradient-descent");
    reveal_strlit("rms-prop");
    assert(views(v).len() == v.len());
    assert(optimizer_names().len() == 8);
    assert forall|i: int, j: int| 0 <= i < j < v.len() implies v[i]@ != v[j]@ by {
        assert(v[i]@ == optimizer_names()[i]);
        assert(v[j]@ == optimizer_names()[j]);
        assert(v[0]@.len() != v[1]@.len());
        assert(v[0]@.len() != v[2]@.len());
        assert(v[0]@.len() != v[3]@.len());
        assert(v[0]@[0] != v[4]@[0]);
        assert(v[0]@.len() != v[5]@.len());
        assert(v[0]@.len() != v[6]@.len());
        assert(v[0]@[0] != v[7]@[0]);
        assert(v[1]@.len() != v[2]@.len());
        assert(v[1]@.len() != v[3]@.len());
        assert(v[1]@.len() != v[4]@.len());
        assert(v[1]@.len() != v[5]@.len());
        assert(v[1]@.len() != v[6]@.len());
        assert(v[1]@.len() != v[7]@.len());
        assert(v[2]@.len() != v[3]@.len());
        assert(v[2]@.len() != v[4]@.len());
        assert(v[2]@.len() != v[5]@.len());
        assert(v[2]@.len() != v[6]@.len());
        assert(v[2]@.len() != v[7]@.len());
        assert(v[3]@.len() != v[4]@.len());
        assert(v[3]@[0] != v[5]@[0]);
        assert(v[3]@.len() != v[6]@.len());
        assert(v[3]@.len() != v[7]@.len());
        assert(v[4]@.len() != v[5]@.len());
        assert(v[4]@.len() != v[6]@.len());
        assert(v[4]@[0] != v[7]@[0]);
        assert(v[5]@.len() != v[6]@.len());
        assert(v[5]@.len() != v[7]@.len());
        assert(v[6]@.len() != v[7]@.len());
    }
}

/// The names of the DeepOBS parameters, in declaration order.
pub open spec fn deepobs_param_names() -> Seq<Seq<char>> {
    seq![
        "optimizer"@,
        "learning_rate"@,
        "weight_decay"@,
        "batch_size"@,
        "adadelta.rho"@,
        "adadelta.epsilon"@,
        "adagrad.initial_accumulator_value"@,
        "adam.beta1"@,
        "adam.beta2"@,
        "adam.epsilon"@,
        "momentum.momentum"@,
        "momentum.use_nesterov"@,
        "proximal-adagrad.initial_accumulator_value"@,
        "proximal-adagrad.l1_regularization_strength"@,
        "proximal-adagrad.l2_regularization_strength"@,
        "proximal-gradient-descent.l1_regularization_strength"@,
        "proximal-gradient-descent.l2_regularization_strength"@,
        "rms-prop.decay"@,
        "rms-prop.momentum"@,
        "rms-prop.epsilon"@,
        "rms-prop.centered"@,
    ]
}

/// The DeepOBS parameter names are pairwise distinct.
proof fn lemma_param_names_distinct()
    ensures
        forall|i: int, j: int|
            0 <= i < j < deepobs_param_names().len() ==> deepobs_param_names()[i]
                != deepobs_param_names()[j],
{
    reveal_strlit("optimizer");
    reveal_strlit("learning_rate");
    reveal_strlit("weight_decay");
    reveal_strlit("batch_size");
    reveal_strlit("adadelta.rho");
    reveal_strlit("adadelta.epsilon");
    reveal_strlit("adagrad.initial_accumulator_value");
    reveal_strlit("adam.beta1");
    reveal_strlit("adam.beta2");
    reveal_strlit("adam.epsilon");
    reveal_strlit("momentum.momentum");
    reveal_strlit("momentum.use_nesterov");
    reveal_strlit("proximal-adagrad.initial_accumulator_value");
    reveal_strlit("proximal-adagrad.l1_regularization_strength");
    reveal_strlit("proximal-adagrad.l2_regularization_strength");
    reveal_strlit("proximal-gradient-descent.l1_regularization_strength");
    reveal_strlit("proximal-gradient-descent.l2_regularization_strength");
    reveal_strlit("rms-prop.decay");
    reveal_strlit("rms-prop.momentum");
    reveal_strlit("rms-prop.epsilon");
    reveal_strlit("rms-prop.centered");
    let n = deepobs_param_names();
    assert(n.len() == 21);
    assert forall|i: int, j: int| 0 <= i < j < n.len() implies n[i] != n[j] by {
        assert(n[0].len() != n[1].len());
        assert(n[0].len() != n[2].len());
        assert(n[0].len() != n[3].len());
        assert(n[0].len() != n[4].len());
        assert(n[0].len() != n[5].len());
        assert(n[0].len() != n[6].len());
        assert(n[0].len() != n[7].len());
        assert(n[0].len() != n[8].len());
        assert(n[0].len() != n[9].len());
        assert(n[0].len() != n[10].len());
        assert(n[0].len() != n[11].len());
        assert(n[0].len() != n[12].len());
        assert(n[0].len() != n[13].len());
        assert(n[0].len() != n[14].len());
        assert(n[0].len() != n[15].len());
        assert(n[0].len() != n[16].len());
        assert(n[0].len() != n[17].len());
        assert(n[0].len() != n[18].len());
        assert(n[0].len() != n[19].len());
        assert(n[0].len() != n[20].len());
        assert(n[1].len() != n[2].len());
        assert(n[1].len() != n[3].len());
        assert(n[1].len() != n[4].len());
        assert(n[1].len() != n[5].len());
        assert(n[1].len() != n[6].len());
        assert(n[1].len() != n[7].len());
        assert(n[1].len() != n[8].len());
        assert(n[1].len() != n[9].len());
        assert(n[1].len() != n[10].len());
        assert(n[1].len() != n[11].len());
        assert(n[1].len() != n[12].len());
        assert(n[1].len() != n[13].len());
        assert(n[1].len() != n[14].len());
        assert(n[1].len() != n[15].len());
        assert(n[1].len() != n[16].len());
        assert(n[1].len() != n[17].len());
        assert(n[1].len() != n[18].len());
        assert(n[1].len() != n[19].len());
        assert(n[1].len() != n[20].len());
        assert(n[2].len() != n[3].len());
        assert(n[2][0] != n[4][0]);
        assert(n[2].len() != n[5].len());
        assert(n[2].len() != n[6].len());
        assert(n[2].len() != n[7].len());
        assert(n[2].len() != n[8].len());
        assert(n[2][0] != n[9][0]);
        assert(n[2].len() != n[10].len());
        assert(n[2].len() != n[11].len());
        assert(n[2].len() != n[12].len());
        assert(n[2].len() != n[13].len());
        assert(n[2].len() != n[14].len());
        assert(n[2].len() != n[15].len());
        assert(n[2].len() != n[16].len());
        assert(n[2].len() != n[17].len());
        assert(n[2].len() != n[18].len());
        assert(n[2].len() != n[19].len());
        assert(n[2].len() != n[20].len());
        assert(n[3].len() != n[4].len());
        assert(n[3].len() != n[5].len());
        assert(n[3].len() != n[6].len());
        assert(n[3][0] != n[7][0]);
        assert(n[3][0] != n[8][0]);
        assert(n[3].len() != n[9].len());
        assert(n[3].len() != n[10].len());
        assert(n[3].len() != n[11].len());
        assert(n[3].len() != n[12].len());
        assert(n[3].len() != n[13].len());
        assert(n[3].len() != n[14].len());
        assert(n[3].len() != n[15].len());
        assert(n[3].len() != n[16].len());
        assert(n[3].len() != n[17].len());
        assert(n[3].len() != n[18].len());
        assert(n[3].len() != n[19].len());
        assert(n[3].len() != n[20].len());
        assert(n[4].len() != n[5].len());
        assert(n[4].len() != n[6].len());
        assert(n[4].len() != n[7].len());
        assert(n[4].len() != n[8].len());
        assert(n[4][3] != n[9][3]);
        assert(n[4].len() != n[10].len());
        assert(n[4].len() != n[11].len());
        assert(n[4].len() != n[12].len());
        assert(n[4].len() != n[13].len());
        assert(n[4].len() != n[14].len());
        assert(n[4].len() != n[15].len());
        assert(n[4].len() != n[16].len());
        assert(n[4].len() != n[17].len());
        assert(n[4].len() != n[18].len());
        assert(n[4].len() != n[19].len());
        assert(n[4].len() != n[20].len());
        assert(n[5].len() != n[6].len());
        assert(n[5].len() != n[7].len());
        assert(n[5].len() != n[8].len());
        assert(n[5].len() != n[9].len());
        assert(n[5].len() != n[10].len());
        assert(n[5].len() != n[11].len());
        assert(n[5].len() != n[12].len());
        assert(n[5].len() != n[13].len());
        assert(n[5].len() != n[14].len());
        assert(n[5].len() != n[15].len());
        assert(n[5].len() != n[16].len());
        assert(n[5].len() != n[17].len());
        assert(n[5].len() != n[18].len());
        assert(n[5][0] != n[19][0]);
        assert(n[5].len() != n[20].len());
        assert(n[6].len() != n[7].len());
        assert(n[6].len() != n[8].len());
        assert(n[6].len() != n[9].len());
        assert(n[6].len() != n[10].len());
        assert(n[6].len() != n[11].len());
        assert(n[6].len() != n[12].len());
        assert(n[6].len() != n[13].len());
        assert(n[6].len() != n[14].len());
        assert(n[6].len() != n[15].len());
        assert(n[6].len() != n[16].len());
        assert(n[6].len() != n[17].len());
        assert(n[6].len() != n[18].len());
        assert(n[6].len() != n[19].len());
        assert(n[6].len() != n[20].len());
        assert(n[7][9] != n[8][9]);
        assert(n[7].len() != n[9].len());
        assert(n[7].len() != n[10].len());
        assert(n[7].len() != n[11].len());
        assert(n[7].len() != n[12].len());
        assert(n[7].len() != n[13].len());
        assert(n[7].len() != n[14].len());
        assert(n[7].len() != n[15].len());
        assert(n[7].len() != n[16].len());
        assert(n[7].len() != n[17].len());
        assert(n[7].len() != n[18].len());
        assert(n[7].len() != n[19].len());
        assert(n[7].len() != n[20].len());
        assert(n[8].len() != n[9].len());
        assert(n[8].len() != n[10].len());
        assert(n[8].len() != n[11].len());
        assert(n[8].len() != n[12].len());
        assert(n[8].len() != n[13].len());
        assert(n[8].len() != n[14].len());
        assert(n[8].len() != n[15].len());
        assert(n[8].len() != n[16].len());
        assert(n[8].len() != n[17].len());
        assert(n[8].len() != n[18].len());
        assert(n[8].len() != n[19].len());
        assert(n[8].len() != n[20].len());
        assert(n[9].len() != n[10].len());
        assert(n[9].len() != n[11].len());
        assert(n[9].len() != n[12].len());
        assert(n[9].len() != n[13].len());
        assert(n[9].len() != n[14].len());
        assert(n[9].len() != n[15].len());
        assert(n[9].len() != n[16].len());
        assert(n[9].len() != n[17].len());
        assert(n[9].len() != n[18].len());
        assert(n[9].len() != n[19].len());
        assert(n[9].len() != n[20].len());
        assert(n[10].len() != n[11].len());
        assert(n[10].len() != n[12].len());
        assert(n[10].len() != n[13].len());
        assert(n[10].len() != n[14].len());
        assert(n[10].len() != n[15].len());
        assert(n[10].len() != n[16].len());
        assert(n[10].len() != n[17].len());
        assert(n[10][0] != n[18][0]);
        assert(n[10].len() != n[19].len());
        assert(n[10][0] != n[20][0]);
        assert(n[11].len() != n[12].len());
        assert(n[11].len() != n[13].len());
        assert(n[11].len() != n[14].len());
        assert(n[11].len() != n[15].len());
        assert(n[11].len() != n[16].len());
        assert(n[11].len() != n[17].len());
        assert(n[11].len() != n[18].len());
        assert(n[11].len() != n[19].len());
        assert(n[11].len() != n[20].len());
        assert(n[12].len() != n[13].len());
        assert(n[12].len() != n[14].len());
        assert(n[12].len() != n[15].len());
        assert(n[12].len() != n[16].len());
        assert(n[12].len() != n[17].len());
        assert(n[12].len() != n[18].len());
        assert(n[12].len() != n[19].len());
        assert(n[12].len() != n[20].len());
        assert(n[13][18] != n[14][18]);
        assert(n[13].len() != n[15].len());
        assert(n[13].len() != n[16].len());
        assert(n[13].len() != n[17].len());
        assert(n[13].len() != n[18].len());
        assert(n[13].len() != n[19].len());
        assert(n[13].len() != n[20].len());
        assert(n[14].len() != n[15].len());
        assert(n[14].len() != n[16].len());
        assert(n[14].len() != n[17].len());
        assert(n[14].len() != n[18].len());
        assert(n[14].len() != n[19].len());
        assert(n[14].len() != n[20].len());
        assert(n[15][27] != n[16][27]);
        assert(n[15].len() != n[17].len());
        assert(n[15].len() != n[18].len());
        assert(n[15].len() != n[19].len());
        assert(n[15].len() != n[20].len());
        assert(n[16].len() != n[17].len());
        assert(n[16].len() != n[18].len());
        assert(n[16].len() != n[19].len());
        assert(n[16].len() != n[20].len());
        assert(n[17].len() != n[18].len());
        assert(n[17].len() != n[19].len());
        assert(n[17].len() != n[20].len());
        assert(n[18].len() != n[19].len());
        assert(n[18][9] != n[20][9]);
        assert(n[19].len() != n[20].len());
    }
}

/// `inner`, active only where `optimizer` takes the choice `mode`.
pub open spec fn guarded(mode: Seq<char>, inner: KindView) -> KindView {
    KindView::Conditional { parent: "optimizer"@, required: mode, inner: Box::new(inner) }
}

/// The kinds of the DeepOBS parameters, in declaration order.
pub open spec fn deepobs_kinds() -> Seq<KindView> {
    seq![
        KindView::Categorical { choices: optimizer_names() },
        KindView::Continuous { low: SMALL, high: UNITS_PER_ONE, log_scale: true },
        KindView::Continuous { low: SMALL, high: UNITS_PER_ONE, log_scale: false },
        KindView::Discrete { low: 1, high: 1024 },
        guarded("adadelta"@, KindView::Continuous { low: TINY, high: UNITS_PER_ONE, log_scale: false }),
        guarded("adadelta"@, KindView::Continuous { low: TINY, high: UNITS_PER_ONE, log_scale: true }),
        guarded("adagrad"@, KindView::Continuous { low: TINY, high: UNITS_PER_ONE, log_scale: false }),
        guarded("adam"@, KindView::Continuous { low: TINY, high: UNITS_PER_ONE, log_scale: false }),
        guarded("adam"@, KindView::Continuous { low: TINY, high: UNITS_PER_ONE, log_scale: false }),
        guarded("adam"@, KindView::Continuous { low: TINY, high: UNITS_PER_ONE, log_scale: true }),
        guarded("momentum"@, KindView::Continuous { low: TINY, high: UNITS_PER_ONE, log_scale: false }),
        guarded("momentum"@, KindView::Categorical { choices: seq!["false"@, "true"@] }),
        guarded("proximal-adagrad"@, KindView::Continuous { low: TINY, high: UNITS_PER_ONE, log_scale: false }),
        guarded("proximal-adagrad"@, KindView::Continuous { low: 0, high: UNITS_PER_ONE, log_scale: false }),
        guarded("proximal-adagrad"@, KindView::Continuous { low: 0, high: UNITS_PER_ONE, log_scale: false }),
        guarded("proximal-gradient-descent"@, KindView::Continuous { low: 0, high: UNITS_PER_ONE, log_scale: false }),
        guarded("proximal-gradient-descent"@, KindView::Continuous { low: 0, high: UNITS_PER_ONE, log_scale: false }),
        guarded("rms-prop"@, KindView::Continuous { low: TINY, high: UNITS_PER_ONE, log_scale: false }),
        guarded("rms-prop"@, KindView::Continuous { low: TINY, high: UNITS_PER_ONE, log_scale: false }),
        guarded("rms-prop"@, KindView::Continuous { low: TINY, high: UNITS_PER_ONE, log_scale: true }),
        guarded("rms-prop"@, KindView::Categorical { choices: seq!["false"@, "true"@] }),
    ]
}

/// The DeepOBS parameter domain: its names and kinds, in declaration order.
pub open spec fn is_deepobs_domain(ds: Seq<ParamDomain>) -> bool {
    &&& ds.map_values(|x: ParamDomain| x.name@) == deepobs_param_names()
    &&& ds.map_values(|x: ParamDomain| kind_view(x.kind)) == deepobs_kinds()
}

/// The names of the training algorithms.
pub fn optimizers() -> (r: Vec<String>)
    ensures
        views(r@) == optimizer_names(),
{
    let mut r: Vec<String> = Vec::new();
    r.push("adadelta".to_string());
    r.push("adagrad".to_string());
    r.push("adam".to_string());
    r.push("gradient-descent".to_string());
    r.push("momentum".to_string());
    r.push("proximal-adagrad".to_string());
    r.push("proximal-gradient-descent".to_string());
    r.push("rms-prop".to_string());
    assert(views(r@) =~= optimizer_names());
    r
}

/// `1e-10` as a continuous bound.
pub const TINY: i64 = 1;

/// `1e-7` as a continuous bound.
pub const SMALL: i64 = 1_000;

/// What a DeepOBS problem is made from.
#[derive(Debug, Clone)]
pub struct DeepobsProblemRecipe {
    /// The test problem to train.
    pub problem: TestProblem,
    /// Where the training data lies.
    pub data_dir: String,
    /// The fidelity schedule: the epoch counts at which training may stop.
    pub epochs: Vec<u64>,
}

/// The value range of the score, in `UNITS_PER_ONE` parts of one.
pub open spec fn score_range() -> (i64, i64) {
    (0, UNITS_PER_ONE)
}

/// What a problem declares of itself.
#[derive(Debug)]
pub struct ProblemSpec {
    /// The problem's name.
    pub name: String,
    /// The problem's version, where it declares one.
    pub version: Option<String>,
    /// The parameters that a configuration gives values to.
    pub params_domain: Vec<ParamDomain>,
    /// The range of each value, in `UNITS_PER_ONE` parts of one.
    pub values_domain: Vec<(i64, i64)>,
    /// The cost of a full evaluation: the largest checkpoint.
    pub evaluation_expense: u64,
    /// Evaluators of the problem may run concurrently.
    pub concurrent: bool,
}

/// A validated DeepOBS problem.
pub struct DeepobsProblem {
    recipe: DeepobsProblemRecipe,
    params_domain: Vec<ParamDomain>,
}

/// The budget of one evaluation.
#[derive(Debug, Clone, Copy, PartialEq, Eq, Structural)]
pub struct Budget {
    /// The requested cost.
    pub amount: u64,
    /// The cost spent, set by the evaluator.
    pub consumption: u64,
}

/// One run of the training script.
#[derive(Debug, Clone)]
pub struct Invocation {
    /// The script's arguments.
    pub args: Vec<String>,
    /// The selected checkpoint.
    pub epochs: u64,
}

/// An evaluator of a DeepOBS problem: it keeps its random seed, the
/// checkpoints still available, largest first, and the shared process that the
/// registry handed it.
pub struct DeepobsEvaluator {
    problem: TestProblem,
    data_dir: String,
    params_domain: Vec<ParamDomain>,
    seed: u32,
    epochs: Vec<u64>,
    acquired: Acquired,
}

impl DeepobsProblemRecipe {
    /// The parameter domain: the training algorithm first, then the common
    /// parameters, then those of each algorithm, namespaced by its name and
    /// active only where it is selected.
    pub fn params_domain(&self) -> (r: Result<Vec<ParamDomain>, Error>)
        ensures
            r is Ok,
            r matches Ok(d) ==> {
                &&& d@.len() == 21
                &&& is_deepobs_domain(d@)
                &&& all_valid(d@)
                &&& unique_names(d@)
            },
    {
        let opts = optimizers();
        proof {
            lemma_optimizers_distinct(opts@);
        }
        let mut d: Vec<ParamDomain> = Vec::new();
        d.push(choices("optimizer", &opts).unwrap());
        d.push(log_uniform("learning_rate", SMALL, UNITS_PER_ONE).unwrap());
        d.push(uniform("weight_decay", SMALL, UNITS_PER_ONE).unwrap());
        d.push(integer("batch_size", 1, 1024).unwrap());
        d.push(crate::domain::when("optimizer", "adadelta", uniform("adadelta.rho", TINY, UNITS_PER_ONE).unwrap()));
        d.push(crate::domain::when("optimizer", "adadelta", log_uniform("adadelta.epsilon", TINY, UNITS_PER_ONE).unwrap()));
        d.push(crate::domain::when("optimizer", "adagrad", uniform("adagrad.initial_accumulator_value", TINY, UNITS_PER_ONE).unwrap()));
        d.push(crate::domain::when("optimizer", "adam", uniform("adam.beta1", TINY, UNITS_PER_ONE).unwrap()));
        d.push(crate::domain::when("optimizer", "adam", uniform("adam.beta2", TINY, UNITS_PER_ONE).unwrap()));
        d.push(crate::domain::when("optimizer", "adam", log_uniform("adam.epsilon", TINY, UNITS_PER_ONE).unwrap()));
        d.push(crate::domain::when("optimizer", "momentum", uniform("momentum.momentum", TINY, UNITS_PER_ONE).unwrap()));
        d.push(crate::domain::when("optimizer", "momentum", boolean("momentum.use_nesterov")));
        d.push(crate::domain::when("optimizer", "proximal-adagrad", uniform("proximal-adagrad.initial_accumulator_value", TINY, UNITS_PER_ONE).unwrap()));
        d.push(crate::domain::when("optimizer", "proximal-adagrad", uniform("proximal-adagrad.l1_regularization_strength", 0, UNITS_PER_ONE).unwrap()));
        d.push(crate::domain::when("optimizer", "proximal-adagrad", uniform("proximal-adagrad.l2_regularization_strength", 0, UNITS_PER_ONE).unwrap()));
        d.push(crate::domain::when("optimizer", "proximal-gradient-descent", uniform("proximal-gradient-descent.l1_regularization_strength", 0, UNITS_PER_ONE).unwrap()));
        d.push(crate::domain::when("optimizer", "proximal-gradient-descent", uniform("proximal-gradient-descent.l2_regularization_strength", 0, UNITS_PER_ONE).unwrap()));
        d.push(crate::domain::when("optimizer", "rms-prop", uniform("rms-prop.decay", TINY, UNITS_PER_ONE).unwrap()));
        d.push(crate::domain::when("optimizer", "rms-prop", uniform("rms-prop.momentum", TINY, UNITS_PER_ONE).unwrap()));
        d.push(crate::domain::when("optimizer", "rms-prop", log_uniform("rms-prop.epsilon", TINY, UNITS_PER_ONE).unwrap()));
        d.push(crate::domain::when("optimizer", "rms-prop", boolean("rms-prop.centered")));
        proof {
            lemma_param_names_distinct();
            assert(d@.map_values(|x: ParamDomain| x.name@) =~= deepobs_param_names());
            reveal_strlit("false");
            reveal_strlit("true");
            assert(d@.map_values(|x: ParamDomain| kind_view(x.kind)) =~= deepobs_kinds());
            assert forall|i: int, j: int| 0 <= i < j < d@.len() implies d@[i].name@ != d@[j].name@ by {
                assert(d@[i].name@ == deepobs_param_names()[i]);
                assert(d@[j].name@ == deepobs_param_names()[j]);
            }
            assert(unique_names(d@));
        }
        Ok(d)
    }

    /// Validates the recipe and makes the problem: the schedule must be
    /// non-empty, positive and ascending.
    pub fn create_problem(&self) -> (r: Result<DeepobsProblem, Error>)
        ensures
            r is Ok <==> valid_schedule(self.epochs@),
            r == Err::<DeepobsProblem, Error>(Error::EmptySchedule) <==> self.epochs@.len() == 0,
            r == Err::<DeepobsProblem, Error>(Error::ZeroCheckpoint) <==> self.epochs@.len() > 0
                && !all_positive(self.epochs@),
            r == Err::<DeepobsProblem, Error>(Error::UnorderedSchedule) <==> self.epochs@.len() > 0
                && all_positive(self.epochs@) && !ascending(self.epochs@),
            r matches Ok(p) ==> p.wf() && p.recipe_epochs() == self.epochs@ && p.problem()
                == self.problem && p.data_dir() == self.data_dir@ && is_deepobs_domain(p.domain()),
    {
        match validate_schedule(&self.epochs) {
            Err(e) => return Err(e),
            Ok(_) => {},
        }
        let params_domain = self.params_domain().unwrap();
        let mut epochs: Vec<u64> = Vec::new();
        let mut i: usize = 0;
        while i < self.epochs.len()
            invariant
                i <= self.epochs.len(),
                epochs@ == self.epochs@.take(i as int),
            decreases self.epochs.len() - i,
        {
            epochs.push(self.epochs[i]);
            i += 1;
            assert(epochs@ =~= self.epochs@.take(i as int));
        }
        assert(epochs@ =~= self.epochs@);
        Ok(DeepobsProblem {
            recipe: DeepobsProblemRecipe {
                problem: self.problem,
                data_dir: self.data_dir.clone(),
                epochs,
            },
            params_domain,
        })
    }
}

/// The `--epochs` flags of a schedule.
pub open spec fn epochs_flags(e: Seq<u64>) -> Seq<Seq<char>>
    decreases e.len(),
{
    if e.len() == 0 {
        Seq::empty()
    } else {
        epochs_flags(e.drop_last()) + seq!["--epochs"@, int_text(e.last() as int)]
    }
}

/// The canonical signature of a DeepOBS problem: the test problem as the
/// subcommand, then its declared flags.
pub open spec fn problem_signature(problem: TestProblem, data_dir: Seq<char>, epochs: Seq<u64>) -> Seq<Seq<char>> {
    seq![problem_name(problem)] + (seq!["--data-dir"@, data_dir] + epochs_flags(epochs))
}

impl DeepobsProblem {
    /// The schedule is valid and the domain is the DeepOBS one.
    pub closed spec fn wf(&self) -> bool {
        &&& valid_schedule(self.recipe.epochs@)
        &&& all_valid(self.params_domain@)
        &&& is_deepobs_domain(self.params_domain@)
    }

    /// The fidelity schedule.
    pub closed spec fn recipe_epochs(&self) -> Seq<u64> {
        self.recipe.epochs@
    }

    /// The test problem.
    pub closed spec fn problem(&self) -> TestProblem {
        self.recipe.problem
    }

    /// Where the training data lies.
    pub closed spec fn data_dir(&self) -> Seq<char> {
        self.recipe.data_dir@
    }

    /// The parameter domain.
    pub closed spec fn domain(&self) -> Seq<ParamDomain> {
        self.params_domain@
    }

    /// What the problem declares of itself: its name under `deepobs/`, its
    /// parameters, a score in `[0, 1]`, the largest checkpoint as the cost of
    /// a full evaluation, and that it may be evaluated concurrently.
    pub fn specification(&self) -> (r: ProblemSpec)
        requires
            self.wf(),
        ensures
            r.name@ == "deepobs/"@ + problem_name(self.problem()),
            r.version is None,
            same_domains(r.params_domain@, self.domain()),
            is_deepobs_domain(r.params_domain@),
            r.values_domain@ == seq![score_range()],
            r.evaluation_expense == self.recipe_epochs().last(),
            r.evaluation_expense > 0,
            r.concurrent,
    {
        let mut name = "deepobs/".to_string();
        let p = self.recipe.problem.to_string();
        name.append(p.as_str());
        let mut values_domain: Vec<(i64, i64)> = Vec::new();
        values_domain.push((0, UNITS_PER_ONE));
        assert(values_domain@ =~= seq![score_range()]);
        let n = self.recipe.epochs.len();
        let params_domain = copy_domains(&self.params_domain);
        proof {
            lemma_same_domains_deepobs(params_domain@, self.params_domain@);
        }
        ProblemSpec {
            name,
            version: None,
            params_domain,
            values_domain,
            evaluation_expense: self.recipe.epochs[n - 1],
            concurrent: true,
        }
    }

    /// The problem's canonical signature.
    pub fn signature(&self) -> (r: Vec<String>)
        ensures
            views(r@) == problem_signature(self.problem(), self.data_dir(), self.recipe_epochs()),
    {
        let mut flags: Vec<String> = Vec::new();
        flags.push("--data-dir".to_string());
        flags.push(self.recipe.data_dir.clone());
        let ghost head = views(flags@);
        let mut i: usize = 0;
        while i < self.recipe.epochs.len()
            invariant
                i <= self.recipe.epochs.len(),
                head == seq!["--data-dir"@, self.recipe.data_dir@],
                views(flags@) == head + epochs_flags(self.recipe.epochs@.take(i as int)),
            decreases self.recipe.epochs.len() - i,
        {
            let ghost before = views(flags@);
            flags.push("--epochs".to_string());
            flags.push(u64_text(self.recipe.epochs[i]));
            proof {
                assert(self.recipe.epochs@.take(i + 1).drop_last() =~= self.recipe.epochs@.take(i as int));
                assert(views(flags@) =~= before + seq!["--epochs"@, int_text(self.recipe.epochs@[i as int] as int)]);
            }
            i += 1;
        }
        assert(self.recipe.epochs@.take(self.recipe.epochs.len() as int) =~= self.recipe.epochs@);
        let name = self.recipe.problem.to_string();
        signature(&name, &flags)
    }

    /// A fresh evaluator with the given seed and the whole schedule available,
    /// holding the process that the registry gives the problem's signature: the
    /// live one where there is one, else a new one for the caller to spawn.
    /// Fails only where the registry's counters would overflow.
    pub fn create_evaluator(&self, cache: &mut ProblemCache, seed: u32) -> (r: Result<DeepobsEvaluator, Error>)
        requires
            self.wf(),
            registry_wf(old(cache)@),
        ensures
            registry_wf(final(cache)@),
            ({
                let sig = problem_signature(self.problem(), self.data_dir(), self.recipe_epochs());
                &&& r is Ok <==> acquire_spec(old(cache)@, sig) is Some
                &&& r matches Ok(e) ==> acquire_spec(old(cache)@, sig) == Some((final(cache)@, e.held()))
            }),
            r is Err ==> r == Err::<DeepobsEvaluator, Error>(Error::RegistryExhausted) && final(cache)@
                == old(cache)@,
            r matches Ok(e) ==> {
                &&& e.wf()
                &&& e.candidates() == candidates_of(self.recipe_epochs())
                &&& e.problem() == self.problem()
                &&& e.data_dir() == self.data_dir()
                &&& same_domains(e.domain(), self.domain())
                &&& is_deepobs_domain(e.domain())
                &&& e.seed() == seed
            },
    {
        let sig = self.signature();
        let acquired = match cache.acquire(&sig) {
            Ok(a) => a,
            Err(e) => return Err(e),
        };
        let epochs = reversed(&self.recipe.epochs);
        proof {
            let s = self.recipe.epochs@;
            assert forall|i: int, j: int| 0 <= i <= j < epochs@.len() implies epochs@[i] >= epochs@[j] by {
                assert(epochs@[i] == s[s.len() - 1 - i]);
                assert(epochs@[j] == s[s.len() - 1 - j]);
            }
        }
        let params_domain = copy_domains(&self.params_domain);
        proof {
            lemma_same_domains_deepobs(params_domain@, self.params_domain@);
        }
        Ok(DeepobsEvaluator {
            problem: self.recipe.problem,
            data_dir: self.recipe.data_dir.clone(),
            params_domain,
            seed,
            epochs,
            acquired,
        })
    }
}

/// In the DeepOBS domain the first parameter selects the training algorithm:
/// a categorical `optimizer` whose choice at each index is that algorithm's name.
pub proof fn lemma_deepobs_selector(ds: Seq<ParamDomain>)
    requires
        is_deepobs_domain(ds),
    ensures
        ds.len() == 21,
        ds[0].name@ == "optimizer"@,
        ds[0].kind is Categorical,
        views(ds[0].kind->Categorical_choices@) == optimizer_names(),
        forall|i: int| 0 <= i < 8 ==> choice_at(ds[0].kind, i) == Some(optimizer_names()[i]),
{
    assert(ds.map_values(|x: ParamDomain| x.name@).len() == ds.len());
    assert(ds.map_values(|x: ParamDomain| x.name@)[0] == ds[0].name@);
    assert(ds.map_values(|x: ParamDomain| kind_view(x.kind))[0] == kind_view(ds[0].kind));
    let c = ds[0].kind->Categorical_choices@;
    assert forall|i: int| 0 <= i < 8 implies choice_at(ds[0].kind, i) == Some(optimizer_names()[i]) by {
        assert(views(c).len() == c.len());
        assert(views(c)[i] == c[i]@);
    }
}

/// A domain alike to the DeepOBS one is the DeepOBS one, and as valid.
pub proof fn lemma_same_domains_deepobs(a: Seq<ParamDomain>, b: Seq<ParamDomain>)
    requires
        same_domains(a, b),
        is_deepobs_domain(b),
        all_valid(b),
    ensures
        is_deepobs_domain(a),
        all_valid(a),
{
    assert(a.map_values(|x: ParamDomain| x.name@) =~= b.map_values(|x: ParamDomain| x.name@));
    assert(a.map_values(|x: ParamDomain| kind_view(x.kind)) =~= b.map_values(|x: ParamDomain| kind_view(x.kind)));
    assert forall|i: int| 0 <= i < a.len() implies kind_valid(#[trigger] a[i].kind) by {
        lemma_same_kind_valid(a[i].kind, b[i].kind);
    }
}

impl DeepobsEvaluator {
    /// The candidates are non-empty and in descending order, and the domain
    /// is the DeepOBS one.
    pub closed spec fn wf(&self) -> bool {
        &&& self.epochs@.len() > 0
        &&& descending(self.epochs@)
        &&& is_deepobs_domain(self.params_domain@)
        &&& all_valid(self.params_domain@)
    }

    /// The checkpoints still available, largest first.
    pub closed spec fn candidates(&self) -> Seq<u64> {
        self.epochs@
    }

    /// The test problem.
    pub closed spec fn problem(&self) -> TestProblem {
        self.problem
    }

    /// Where the training data lies.
    pub closed spec fn data_dir(&self) -> Seq<char> {
        self.data_dir@
    }

    /// The parameter domain.
    pub closed spec fn domain(&self) -> Seq<ParamDomain> {
        self.params_domain@
    }

    /// The evaluator's random seed.
    pub closed spec fn seed(&self) -> u32 {
        self.seed
    }

    /// The shared process that the evaluator holds, and whether it was new.
    pub closed spec fn held(&self) -> Acquired {
        self.acquired
    }

    /// The shared process that the evaluator holds, and whether it was new.
    pub fn acquired(&self) -> (r: Acquired)
        ensures
            r == self.held(),
    {
        self.acquired
    }

    /// Prepares one evaluation of `params` within `budget`, with results
    /// written under `output_dir`: selects the checkpoint, discarding for good
    /// each smaller one below the budget, resolves the mode that the first
    /// value selects, and builds the script's arguments. Fails where the mode
    /// cannot be resolved or an active value has no text for its kind.
    pub fn prepare(&mut self, params: &Vec<ParamValue>, budget: &Budget, output_dir: &String) -> (r: Result<Invocation, Error>)
        requires
            old(self).wf(),
        ensures
            final(self).wf(),
            final(self).candidates() == shrink(old(self).candidates(), budget.amount),
            final(self).candidates().is_prefix_of(old(self).candidates()),
            final(self).candidates().len() > 1 ==> final(self).candidates().last() >= budget.amount,
            final(self).problem() == old(self).problem(),
            final(self).data_dir() == old(self).data_dir(),
            final(self).domain() == old(self).domain(),
            final(self).seed() == old(self).seed(),
            final(self).held() == old(self).held(),
            r == Err::<Invocation, Error>(Error::UnresolvedMode) <==> mode_of(old(self).domain(), params@) is None,
            r == Err::<Invocation, Error>(Error::MalformedValue) <==> mode_of(old(self).domain(), params@) is Some
                && config_malformed(mode_of(old(self).domain(), params@).unwrap(), old(self).domain(), params@),
            r is Ok <==> mode_of(old(self).domain(), params@) is Some && !config_malformed(
                mode_of(old(self).domain(), params@).unwrap(),
                old(self).domain(),
                params@,
            ),
            r matches Ok(inv) ==> {
                let mode = mode_of(old(self).domain(), params@).unwrap();
                &&& inv.epochs == final(self).candidates().last()
                &&& selected(old(self).candidates(), budget.amount, inv.epochs)
                &&& views(inv.args@) == invocation_args(
                    mode,
                    problem_name(old(self).problem()),
                    old(self).data_dir(),
                    output_dir@,
                    old(self).seed(),
                    inv.epochs,
                    config_flags_spec(mode, old(self).domain(), params@),
                )
            },
    {
        proof {
            lemma_shrink_stops(self.epochs@, budget.amount);
        }
        let epochs = select_fidelity(&mut self.epochs, budget.amount);
        let mode = match resolve_mode(&self.params_domain, params) {
            Ok(m) => m,
            Err(e) => return Err(e),
        };
        let flags = match config_flags(&mode, &self.params_domain, params) {
            Ok(f) => f,
            Err(e) => return Err(e),
        };
        let problem = self.problem.to_string();
        let args = build_args(&mode, &problem, &self.data_dir, output_dir, self.seed, epochs, flags);
        Ok(Invocation { args, epochs })
    }

    /// Completes an evaluation once the script has exited: a failure status
    /// fails it; on success the budget's consumption becomes the selected
    /// checkpoint.
    pub fn complete(&self, invocation: &Invocation, exit_success: bool, budget: &mut Budget) -> (r: Result<(), Error>)
        ensures
            r is Ok <==> exit_success,
            r is Err ==> r == Err::<(), Error>(Error::ProcessFailed) && *final(budget) == *old(budget),
            r is Ok ==> final(budget).consumption == invocation.epochs && final(budget).amount
                == old(budget).amount,
    {
        if !exit_success {
            return Err(Error::ProcessFailed);
        }
        budget.consumption = invocation.epochs;
        Ok(())
    }

    /// Lets the evaluator's shared process go: the registry counts one holder
    /// fewer.
    pub fn close(self, cache: &mut ProblemCache)
        requires
            registry_wf(old(cache)@),
        ensures
            registry_wf(final(cache)@),
            final(cache)@ == release_spec(old(cache)@, self.held().process),
    {
        cache.release(self.acquired.process);
    }
}

} // verus!
