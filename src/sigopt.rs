//! Problems built on the test functions of the evalset suite: their names,
//! dimensions, and which input dimensions take integers only.
use crate::text::{int_text, u64_text};
use vstd::prelude::*;
use vstd::string::*;

verus! {

/// The test functions of the evalset suite that can be chosen.
#[derive(Debug, Clone, Copy, PartialEq, Eq, Structural)]
pub enum Name {
    Ackley,
    Adjiman,
    Alpine02,
    Branin02,
    Bukin06,
    CarromTable,
    Csendes,
    Deb02,
    DeflectedCorrugatedSpring,
    Easom,
    Exponential,
    Hartmann3,
    Hartmann6,
    HelicalValley,
    HimmelBlau,
    LennardJones6,
    McCourt01,
    McCourt02,
    McCourt03,
    McCourt06,
    McCourt07,
    McCourt08,
    McCourt09,
    McCourt10,
    McCourt11,
    McCourt12,
    McCourt13,
    McCourt14,
    McCourt16,
    McCourt17,
    McCourt18,
    McCourt19,
    McCourt20,
    McCourt22,
    McCourt23,
    McCourt26,
    McCourt27,
    McCourt28,
    Michalewicz,
    Mishra06,
    Ned01,
    OddSquare,
    Parsopoulos,
    Pinter,
    Plateau,
    Powell,
    Rastrigin,
    RosenbrockLog,
    Sargan,
    Schwefel20,
    Schwefel36,
    Shekel05,
    Shekel07,
    SixHumpCamel,
    Sphere,
    StyblinskiTang,
    Trid,
    Tripod,
    Weierstrass,
    Xor,
    YaoLiu,
    Problem03,
}

/// The name under which the evalset suite defines a test function.
pub open spec fn test_function_name(n: Name) -> Seq<char> {
    match n {
        Name::Ackley => "Ackley"@,
        Name::Adjiman => "Adjiman"@,
        Name::Alpine02 => "Alpine02"@,
        Name::Branin02 => "Branin02"@,
        Name::Bukin06 => "Bukin06"@,
        Name::CarromTable => "CarromTable"@,
        Name::Csendes => "Csendes"@,
        Name::Deb02 => "Deb02"@,
        Name::DeflectedCorrugatedSpring => "DeflectedCorrugatedSpring"@,
        Name::Easom => "Easom"@,
        Name::Exponential => "Exponential"@,
        Name::Hartmann3 => "Hartmann3"@,
        Name::Hartmann6 => "Hartmann6"@,
        Name::HelicalValley => "HelicalValley"@,
        Name::HimmelBlau => "HimmelBlau"@,
        Name::LennardJones6 => "LennardJones6"@,
        Name::McCourt01 => "McCourt01"@,
        Name::McCourt02 => "McCourt02"@,
        Name::McCourt03 => "McCourt03"@,
        Name::McCourt06 => "McCourt06"@,
        Name::McCourt07 => "McCourt07"@,
        Name::McCourt08 => "McCourt08"@,
        Name::McCourt09 => "McCourt09"@,
        Name::McCourt10 => "McCourt10"@,
        Name::McCourt11 => "McCourt11"@,
        Name::McCourt12 => "McCourt12"@,
        Name::McCourt13 => "McCourt13"@,
        Name::McCourt14 => "McCourt14"@,
        Name::McCourt16 => "McCourt16"@,
        Name::McCourt17 => "McCourt17"@,
        Name::McCourt18 => "McCourt18"@,
        Name::McCourt19 => "McCourt19"@,
        Name::McCourt20 => "McCourt20"@,
        Name::McCourt22 => "McCourt22"@,
        Name::McCourt23 => "McCourt23"@,
        Name::McCourt26 => "McCourt26"@,
        Name::McCourt27 => "McCourt27"@,
        Name::McCourt28 => "McCourt28"@,
        Name::Michalewicz => "Michalewicz"@,
        Name::Mishra06 => "Mishra06"@,
        Name::Ned01 => "Ned01"@,
        Name::OddSquare => "OddSquare"@,
        Name::Parsopoulos => "Parsopoulos"@,
        Name::Pinter => "Pinter"@,
        Name::Plateau => "Plateau"@,
        Name::Powell => "Powell"@,
        Name::Rastrigin => "Rastrigin"@,
        Name::RosenbrockLog => "RosenbrockLog"@,
        Name::Sargan => "Sargan"@,
        Name::Schwefel20 => "Schwefel20"@,
        Name::Schwefel36 => "Schwefel36"@,
        Name::Shekel05 => "Shekel05"@,
        Name::Shekel07 => "Shekel07"@,
        Name::SixHumpCamel => "SixHumpCamel"@,
        Name::Sphere => "Sphere"@,
        Name::StyblinskiTang => "StyblinskiTang"@,
        Name::Trid => "Trid"@,
        Name::Tripod => "Tripod"@,
        Name::Weierstrass => "Weierstrass"@,
        Name::Xor => "Xor"@,
        Name::YaoLiu => "YaoLiu"@,
        Name::Problem03 => "Problem03"@,
    }
}

impl Name {
    /// The test function that the name selects, by its name in the evalset suite.
    pub fn to_test_function(self) -> (r: String)
        ensures
            r@ == test_function_name(self),
    {
        match self {
            Name::Ackley => "Ackley".to_string(),
            Name::Adjiman => "Adjiman".to_string(),
            Name::Alpine02 => "Alpine02".to_string(),
            Name::Branin02 => "Branin02".to_string(),
            Name::Bukin06 => "Bukin06".to_string(),
            Name::CarromTable => "CarromTable".to_string(),
            Name::Csendes => "Csendes".to_string(),
            Name::Deb02 => "Deb02".to_string(),
            Name::DeflectedCorrugatedSpring => "DeflectedCorrugatedSpring".to_string(),
            Name::Easom => "Easom".to_string(),
            Name::Exponential => "Exponential".to_string(),
            Name::Hartmann3 => "Hartmann3".to_string(),
            Name::Hartmann6 => "Hartmann6".to_string(),
            Name::HelicalValley => "HelicalValley".to_string(),
            Name::HimmelBlau => "HimmelBlau".to_string(),
            Name::LennardJones6 => "LennardJones6".to_string(),
            Name::McCourt01 => "McCourt01".to_string(),
            Name::McCourt02 => "McCourt02".to_string(),
            Name::McCourt03 => "McCourt03".to_string(),
            Name::McCourt06 => "McCourt06".to_string(),
            Name::McCourt07 => "McCourt07".to_string(),
            Name::McCourt08 => "McCourt08".to_string(),
            Name::McCourt09 => "McCourt09".to_string(),
            Name::McCourt10 => "McCourt10".to_string(),
            Name::McCourt11 => "McCourt11".to_string(),
            Name::McCourt12 => "McCourt12".to_string(),
            Name::McCourt13 => "McCourt13".to_string(),
            Name::McCourt14 => "McCourt14".to_string(),
            Name::McCourt16 => "McCourt16".to_string(),
            Name::McCourt17 => "McCourt17".to_string(),
            Name::McCourt18 => "McCourt18".to_string(),
            Name::McCourt19 => "McCourt19".to_string(),
            Name::McCourt20 => "McCourt20".to_string(),
            Name::McCourt22 => "McCourt22".to_string(),
            Name::McCourt23 => "McCourt23".to_string(),
            Name::McCourt26 => "McCourt26".to_string(),
            Name::McCourt27 => "McCourt27".to_string(),
            Name::McCourt28 => "McCourt28".to_string(),
            Name::Michalewicz => "Michalewicz".to_string(),
            Name::Mishra06 => "Mishra06".to_string(),
            Name::Ned01 => "Ned01".to_string(),
            Name::OddSquare => "OddSquare".to_string(),
            Name::Parsopoulos => "Parsopoulos".to_string(),
            Name::Pinter => "Pinter".to_string(),
            Name::Plateau => "Plateau".to_string(),
            Name::Powell => "Powell".to_string(),
            Name::Rastrigin => "Rastrigin".to_string(),
            Name::RosenbrockLog => "RosenbrockLog".to_string(),
            Name::Sargan => "Sargan".to_string(),
            Name::Schwefel20 => "Schwefel20".to_string(),
            Name::Schwefel36 => "Schwefel36".to_string(),
            Name::Shekel05 => "Shekel05".to_string(),
            Name::Shekel07 => "Shekel07".to_string(),
            Name::SixHumpCamel => "SixHumpCamel".to_string(),
            Name::Sphere => "Sphere".to_string(),
            Name::StyblinskiTang => "StyblinskiTang".to_string(),
            Name::Trid => "Trid".to_string(),
            Name::Tripod => "Tripod".to_string(),
            Name::Weierstrass => "Weierstrass".to_string(),
            Name::Xor => "Xor".to_string(),
            Name::YaoLiu => "YaoLiu".to_string(),
            Name::Problem03 => "Problem03".to_string(),
        }
    }
}

/// What a problem on an evalset test function is made from.
pub struct SigoptProblemRecipe {
    /// The test function.
    pub name: Name,
    /// The dimension; the test function's default where absent.
    pub dim: Option<usize>,
    /// The input resolution, as decimal text.
    pub res: Option<String>,
    /// The input dimensions that take integers only.
    pub int: Vec<usize>,
}

/// The factory of problems on one test function.
pub struct SigoptProblemFactory {
    pub name: Name,
    pub dim: usize,
    pub res: Option<String>,
    pub int: Vec<usize>,
}

/// A problem on one test function.
pub struct SigoptProblem {
    pub name: Name,
    pub res: Option<String>,
}

/// The entries of `s` as decimal text, separated by `, `.
pub open spec fn joined(s: Seq<usize>) -> Seq<char>
    decreases s.len(),
{
    if s.len() == 0 {
        Seq::empty()
    } else if s.len() == 1 {
        int_text(s[0] as int)
    } else {
        joined(s.drop_last()) + ", "@ + int_text(s.last() as int)
    }
}

/// The name of the problem: the function, its dimension, and the resolution
/// and integer dimensions where there are any.
pub open spec fn sigopt_problem_name(
    name: Name,
    dim: usize,
    res: Option<Seq<char>>,
    ints: Seq<usize>,
) -> Seq<char> {
    let head = "sigopt/evalset/"@ + test_function_name(name) + "(dim="@ + int_text(dim as int);
    let with_res = match res {
        Some(r) => head + ", res="@ + r,
        None => head,
    };
    let with_int = if ints.len() > 0 {
        with_res + ", int=["@ + joined(ints) + "]"@
    } else {
        with_res
    };
    with_int + ")"@
}

/// The text of an optional resolution.
pub open spec fn res_text(res: Option<String>) -> Option<Seq<char>> {
    match res {
        Some(r) => Some(r@),
        None => None,
    }
}

fn copy_option(s: &Option<String>) -> (r: Option<String>)
    ensures
        r == *s,
{
    match s {
        Some(x) => Some(x.clone()),
        None => None,
    }
}

impl SigoptProblemRecipe {
    /// Makes the factory, with `default_dimension`, the test function's own,
    /// where the recipe gives no dimension.
    pub fn create_factory(&self, default_dimension: usize) -> (r: SigoptProblemFactory)
        ensures
            r.name == self.name,
            r.dim == (match self.dim {
                Some(d) => d,
                None => default_dimension,
            }),
            r.res == self.res,
            r.int@ == self.int@,
    {
        let dim = match self.dim {
            Some(d) => d,
            None => default_dimension,
        };
        let mut ints: Vec<usize> = Vec::new();
        let mut i: usize = 0;
        while i < self.int.len()
            invariant
                i <= self.int.len(),
                ints@ == self.int@.take(i as int),
            decreases self.int.len() - i,
        {
            ints.push(self.int[i]);
            i += 1;
            assert(ints@ =~= self.int@.take(i as int));
        }
        assert(ints@ =~= self.int@);
        SigoptProblemFactory { name: self.name, dim, res: copy_option(&self.res), int: ints }
    }
}

impl SigoptProblemFactory {
    /// The problem's name.
    pub fn problem_name(&self) -> (r: String)
        ensures
            r@ == sigopt_problem_name(self.name, self.dim, res_text(self.res), self.int@),
    {
        let mut s = "sigopt/evalset/".to_string();
        let f = self.name.to_test_function();
        s.append(f.as_str());
        s.append("(dim=");
        let d = u64_text(self.dim as u64);
        s.append(d.as_str());
        match &self.res {
            Some(r) => {
                s.append(", res=");
                s.append(r.as_str());
            },
            None => {},
        }
        if self.int.len() > 0 {
            s.append(", int=[");
            let mut i: usize = 0;
            while i < self.int.len()
                invariant
                    i <= self.int.len(),
                    self.int.len() > 0,
                    i > 0 ==> s@ == self.head_with_res() + ", int=["@ + joined(self.int@.take(i as int)),
                    i == 0 ==> s@ == self.head_with_res() + ", int=["@,
                decreases self.int.len() - i,
            {
                let ghost before = s@;
                if i > 0 {
                    s.append(", ");
                }
                let t = u64_text(self.int[i] as u64);
                s.append(t.as_str());
                proof {
                    let taken = self.int@.take(i + 1);
                    assert(taken.drop_last() =~= self.int@.take(i as int));
                    if i == 0 {
                        assert(taken.len() == 1);
                    }
                }
                i += 1;
            }
            assert(self.int@.take(self.int.len() as int) =~= self.int@);
            s.append("]");
        }
        s.append(")");
        s
    }

    /// The name up to the resolution.
    pub open spec fn head_with_res(&self) -> Seq<char> {
        let head = "sigopt/evalset/"@ + test_function_name(self.name) + "(dim="@ + int_text(
            self.dim as int,
        );
        match self.res {
            Some(r) => head + ", res="@ + r@,
            None => head,
        }
    }

    /// Whether input dimension `i` takes integers only.
    pub fn is_integer_dim(&self, i: usize) -> (r: bool)
        ensures
            r == self.int@.contains(i),
    {
        let mut k: usize = 0;
        while k < self.int.len()
            invariant
                k <= self.int.len(),
                forall|j: int| 0 <= j < k ==> self.int@[j] != i,
            decreases self.int.len() - k,
        {
            if self.int[k] == i {
                return true;
            }
            k += 1;
        }
        false
    }

    /// The problem on the factory's test function.
    pub fn create_problem(&self) -> (r: SigoptProblem)
        ensures
            r.name == self.name,
            r.res == self.res,
    {
        SigoptProblem { name: self.name, res: copy_option(&self.res) }
    }
}

/// The attributes that a problem on a test function declares: the library's
/// version, the paper that defines the suite, and the suite's repository.
pub open spec fn sigopt_attrs() -> Seq<(Seq<char>, Seq<char>)> {
    seq![
        ("version"@, "kurobako_problems=0.1.0"@),
        ("paper"@, "Dewancker, Ian, et al. \"A strategy for ranking optimization methods using multiple criteria.\" Workshop on Automatic Machine Learning. 2016."@),
        ("github"@, "https://github.com/sigopt/evalset"@),
    ]
}

/// The problem's attributes, as key and value.
pub fn attrs() -> (r: Vec<(String, String)>)
    ensures
        r@.map_values(|a: (String, String)| (a.0@, a.1@)) == sigopt_attrs(),
{
    let mut r: Vec<(String, String)> = Vec::new();
    r.push(("version".to_string(), "kurobako_problems=0.1.0".to_string()));
    r.push((
        "paper".to_string(),
        "Dewancker, Ian, et al. \"A strategy for ranking optimization methods using multiple criteria.\" Workshop on Automatic Machine Learning. 2016.".to_string(),
    ));
    r.push(("github".to_string(), "https://github.com/sigopt/evalset".to_string()));
    assert(r@.map_values(|a: (String, String)| (a.0@, a.1@)) =~= sigopt_attrs());
    r
}

/// The name of the problem's one value.
pub fn value_name() -> (r: String)
    ensures
        r@ == "Objective Value"@,
{
    "Objective Value".to_string()
}

/// The name of input dimension `i`: `p` and its number.
pub fn param_name(i: usize) -> (r: String)
    ensures
        r@ == "p"@ + int_text(i as int),
{
    let mut s = "p".to_string();
    let t = u64_text(i as u64);
    s.append(t.as_str());
    s
}

} // verus!
