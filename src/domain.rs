//! The parameter domain model: named continuous, discrete and categorical
//! parameters, and parameters that are active only on one branch of another.
use crate::error::Error;
use crate::text::views;
use vstd::prelude::*;

verus! {

/// Continuous bounds are integers counting this many parts of one.
pub const UNITS_PER_ONE: i64 = 10_000_000_000;

/// The kind of a parameter and its bounds.
#[derive(Debug)]
pub enum ParamKind {
    /// A real range `[low, high)`, in `UNITS_PER_ONE` parts of one; sampled on a
    /// log scale where `log_scale` holds.
    Continuous { low: i64, high: i64, log_scale: bool },
    /// An integer range `[low, high)`.
    Discrete { low: i64, high: i64 },
    /// One of an ordered list of named choices.
    Categorical { choices: Vec<String> },
    /// `inner`, active only where the categorical parameter `parent` takes the
    /// choice `required`.
    Conditional { parent: String, required: String, inner: Box<ParamKind> },
}

/// A named parameter.
#[derive(Debug)]
pub struct ParamDomain {
    pub name: String,
    pub kind: ParamKind,
}

/// A value of a parameter, of the same kind as its domain.
#[derive(Debug)]
pub enum ParamValue {
    /// A real value, as its shortest decimal text.
    Continuous(String),
    /// An integer value.
    Discrete(i64),
    /// The index of the chosen choice.
    Categorical(usize),
    /// The value of a conditional parameter; absent where its branch is not taken.
    Conditional(Option<Box<ParamValue>>),
}

/// The entries of `s` are pairwise distinct.
pub open spec fn distinct_strings(s: Seq<String>) -> bool {
    forall|i: int, j: int| 0 <= i < j < s.len() ==> s[i]@ != s[j]@
}

/// The bounds of a kind are well ordered and its choices non-empty and distinct.
pub open spec fn kind_valid(k: ParamKind) -> bool
    decreases k,
{
    match k {
        ParamKind::Continuous { low, high, log_scale } => low < high && (log_scale ==> low > 0),
        ParamKind::Discrete { low, high } => low < high,
        ParamKind::Categorical { choices } => choices@.len() > 0 && distinct_strings(choices@),
        ParamKind::Conditional { parent, required, inner } => kind_valid(*inner),
    }
}

/// No two domains of the list share a name.
pub open spec fn unique_names(ds: Seq<ParamDomain>) -> bool {
    forall|i: int, j: int| 0 <= i < j < ds.len() ==> ds[i].name@ != ds[j].name@
}

/// Every domain of the list is valid.
pub open spec fn all_valid(ds: Seq<ParamDomain>) -> bool {
    forall|i: int| 0 <= i < ds.len() ==> kind_valid(#[trigger] ds[i].kind)
}

/// The choice that the categorical parameter `k` takes at index `i`, if any.
pub open spec fn choice_at(k: ParamKind, i: int) -> Option<Seq<char>> {
    match k {
        ParamKind::Categorical { choices } => if 0 <= i < choices@.len() {
            Some(choices@[i]@)
        } else {
            None
        },
        _ => None,
    }
}

/// A continuous parameter on a linear scale.
pub fn uniform(name: &str, low: i64, high: i64) -> (r: Result<ParamDomain, Error>)
    ensures
        r is Ok <==> low < high,
        r is Err ==> r == Err::<ParamDomain, Error>(Error::InvalidBounds),
        r matches Ok(d) ==> d.name@ == name@ && d.kind == (ParamKind::Continuous {
            low,
            high,
            log_scale: false,
        }) && kind_valid(d.kind),
{
    if low < high {
        Ok(ParamDomain {
            name: name.to_string(),
            kind: ParamKind::Continuous { low, high, log_scale: false },
        })
    } else {
        Err(Error::InvalidBounds)
    }
}

/// A continuous parameter on a log scale.
pub fn log_uniform(name: &str, low: i64, high: i64) -> (r: Result<ParamDomain, Error>)
    ensures
        r is Ok <==> 0 < low < high,
        r == Err::<ParamDomain, Error>(Error::InvalidBounds) <==> low >= high,
        r == Err::<ParamDomain, Error>(Error::NonPositiveLogBound) <==> low < high && low <= 0,
        r matches Ok(d) ==> d.name@ == name@ && d.kind == (ParamKind::Continuous {
            low,
            high,
            log_scale: true,
        }) && kind_valid(d.kind),
{
    if low >= high {
        Err(Error::InvalidBounds)
    } else if low <= 0 {
        Err(Error::NonPositiveLogBound)
    } else {
        Ok(ParamDomain {
            name: name.to_string(),
            kind: ParamKind::Continuous { low, high, log_scale: true },
        })
    }
}

/// An integer parameter.
pub fn integer(name: &str, low: i64, high: i64) -> (r: Result<ParamDomain, Error>)
    ensures
        r is Ok <==> low < high,
        r is Err ==> r == Err::<ParamDomain, Error>(Error::InvalidBounds),
        r matches Ok(d) ==> d.name@ == name@ && d.kind == (ParamKind::Discrete { low, high })
            && kind_valid(d.kind),
{
    if low < high {
        Ok(ParamDomain { name: name.to_string(), kind: ParamKind::Discrete { low, high } })
    } else {
        Err(Error::InvalidBounds)
    }
}

/// Copies a list of strings.
pub fn copy_strings(v: &Vec<String>) -> (r: Vec<String>)
    ensures
        r@ == v@,
{
    let mut r: Vec<String> = Vec::new();
    let mut i: usize = 0;
    while i < v.len()
        invariant
            i <= v.len(),
            r@ == v@.take(i as int),
        decreases v.len() - i,
    {
        r.push(v[i].clone());
        i += 1;
        assert(r@ =~= v@.take(i as int));
    }
    assert(v@.take(v.len() as int) =~= v@);
    r
}

/// Checks that a list of strings holds no entry twice.
pub fn check_distinct(v: &Vec<String>) -> (r: bool)
    ensures
        r == distinct_strings(v@),
{
    let mut i: usize = 0;
    while i < v.len()
        invariant
            i <= v.len(),
            forall|a: int, b: int| 0 <= a < b < v.len() && a < i ==> v@[a]@ != v@[b]@,
        decreases v.len() - i,
    {
        let mut j: usize = i + 1;
        while j < v.len()
            invariant
                i < j <= v.len(),
                forall|a: int, b: int| 0 <= a < b < v.len() && a < i ==> v@[a]@ != v@[b]@,
                forall|b: int| i < b < j ==> v@[i as int]@ != v@[b]@,
            decreases v.len() - j,
        {
            if v[i] == v[j] {
                return false;
            }
            j += 1;
        }
        i += 1;
    }
    true
}

/// A categorical parameter over the given choices.
pub fn choices(name: &str, options: &Vec<String>) -> (r: Result<ParamDomain, Error>)
    ensures
        r is Ok <==> options@.len() > 0 && distinct_strings(options@),
        r == Err::<ParamDomain, Error>(Error::EmptyChoices) <==> options@.len() == 0,
        r == Err::<ParamDomain, Error>(Error::DuplicateChoice) <==> options@.len() > 0
            && !distinct_strings(options@),
        r matches Ok(d) ==> d.name@ == name@ && d.kind is Categorical
            && d.kind->Categorical_choices@ == options@ && kind_valid(d.kind)
            && kind_view(d.kind) == (KindView::Categorical { choices: views(options@) }),
{
    if options.len() == 0 {
        return Err(Error::EmptyChoices);
    }
    if !check_distinct(options) {
        return Err(Error::DuplicateChoice);
    }
    Ok(ParamDomain { name: name.to_string(), kind: ParamKind::Categorical { choices: copy_strings(options) } })
}

/// A two-way categorical parameter with the choices `false` and `true`.
pub fn boolean(name: &str) -> (r: ParamDomain)
    ensures
        r.name@ == name@,
        r.kind is Categorical,
        r.kind->Categorical_choices@.len() == 2,
        r.kind->Categorical_choices@[0]@ == "false"@,
        r.kind->Categorical_choices@[1]@ == "true"@,
        kind_view(r.kind) == (KindView::Categorical { choices: seq!["false"@, "true"@] }),
        kind_valid(r.kind),
{
    let mut options: Vec<String> = Vec::new();
    options.push("false".to_string());
    options.push("true".to_string());
    proof {
        reveal_strlit("false");
        reveal_strlit("true");
        assert(options@[0]@[0] != options@[1]@[0]);
        assert(views(options@) =~= seq!["false"@, "true"@]);
    }
    ParamDomain { name: name.to_string(), kind: ParamKind::Categorical { choices: options } }
}

/// Makes `param` active only where the categorical parameter `parent` takes
/// the choice `required`; the name stays that of `param`.
pub fn when(parent: &str, required: &str, param: ParamDomain) -> (r: ParamDomain)
    ensures
        r.name == param.name,
        r.kind is Conditional,
        r.kind->Conditional_parent@ == parent@,
        r.kind->Conditional_required@ == required@,
        *r.kind->Conditional_inner == param.kind,
        kind_valid(r.kind) == kind_valid(param.kind),
        kind_view(r.kind) == (KindView::Conditional {
            parent: parent@,
            required: required@,
            inner: Box::new(kind_view(param.kind)),
        }),
{
    ParamDomain {
        name: param.name,
        kind: ParamKind::Conditional {
            parent: parent.to_string(),
            required: required.to_string(),
            inner: Box::new(param.kind),
        },
    }
}

/// A parameter kind as a value: bounds, choice texts and guard.
pub enum KindView {
    Continuous { low: i64, high: i64, log_scale: bool },
    Discrete { low: i64, high: i64 },
    Categorical { choices: Seq<Seq<char>> },
    Conditional { parent: Seq<char>, required: Seq<char>, inner: Box<KindView> },
}

/// The value of a parameter kind.
pub open spec fn kind_view(k: ParamKind) -> KindView
    decreases k,
{
    match k {
        ParamKind::Continuous { low, high, log_scale } => KindView::Continuous { low, high, log_scale },
        ParamKind::Discrete { low, high } => KindView::Discrete { low, high },
        ParamKind::Categorical { choices } => KindView::Categorical {
            choices: views(choices@),
        },
        ParamKind::Conditional { parent, required, inner } => KindView::Conditional {
            parent: parent@,
            required: required@,
            inner: Box::new(kind_view(*inner)),
        },
    }
}

/// Two kinds are alike: of one kind, with the same bounds, choices and guard.
pub open spec fn same_kind(a: ParamKind, b: ParamKind) -> bool {
    kind_view(a) == kind_view(b)
}

/// Alike kinds are valid together.
pub proof fn lemma_same_kind_valid(a: ParamKind, b: ParamKind)
    requires
        same_kind(a, b),
    ensures
        kind_valid(a) == kind_valid(b),
    decreases a,
{
    match (a, b) {
        (
            ParamKind::Conditional { inner: i, .. },
            ParamKind::Conditional { inner: i2, .. },
        ) => {
            lemma_same_kind_valid(*i, *i2);
        },
        (ParamKind::Categorical { choices: x }, ParamKind::Categorical { choices: y }) => {
            assert(views(x@).len() == x@.len());
            assert(views(y@).len() == y@.len());
            assert forall|i: int, j: int| 0 <= i < j < x@.len() implies (x@[i]@ != x@[j]@) == (y@[i]@ != y@[j]@) by {
                assert(views(x@)[i] == views(y@)[i]);
                assert(views(x@)[j] == views(y@)[j]);
            }
        },
        _ => {},
    }
}

/// Two lists of domains are alike, entry by entry.
pub open spec fn same_domains(a: Seq<ParamDomain>, b: Seq<ParamDomain>) -> bool {
    &&& a.len() == b.len()
    &&& forall|i: int| 0 <= i < a.len() ==> a[i].name@ == b[i].name@ && same_kind(a[i].kind, b[i].kind)
}

/// Copies a parameter kind.
pub fn copy_kind(k: &ParamKind) -> (r: ParamKind)
    ensures
        same_kind(r, *k),
    decreases k,
{
    match k {
        ParamKind::Continuous { low, high, log_scale } => ParamKind::Continuous {
            low: *low,
            high: *high,
            log_scale: *log_scale,
        },
        ParamKind::Discrete { low, high } => ParamKind::Discrete { low: *low, high: *high },
        ParamKind::Categorical { choices } => {
            ParamKind::Categorical { choices: copy_strings(choices) }
        },
        ParamKind::Conditional { parent, required, inner } => ParamKind::Conditional {
            parent: parent.clone(),
            required: required.clone(),
            inner: Box::new(copy_kind(inner)),
        },
    }
}

/// Copies a list of parameter domains.
pub fn copy_domains(ds: &Vec<ParamDomain>) -> (r: Vec<ParamDomain>)
    ensures
        same_domains(r@, ds@),
{
    let mut r: Vec<ParamDomain> = Vec::new();
    let mut i: usize = 0;
    while i < ds.len()
        invariant
            i <= ds.len(),
            same_domains(r@, ds@.take(i as int)),
        decreases ds.len() - i,
    {
        r.push(ParamDomain { name: ds[i].name.clone(), kind: copy_kind(&ds[i].kind) });
        i += 1;
    }
    assert(ds@.take(ds.len() as int) =~= ds@);
    r
}

} // verus!
