//! The command line of one evaluation: fixed arguments, then one flag per
//! parameter that is active under the selected mode.
use crate::domain::{choice_at, ParamDomain, ParamKind, ParamValue};
use crate::error::Error;
use crate::text::{
    field_of, i64_text, int_text, is_namespaced, namespace_of, split_name, u64_text, views,
};
use vstd::prelude::*;
use vstd::string::*;

verus! {

/// The kind that a parameter's values are read against: the inner kind of a
/// conditional parameter, else the kind itself.
pub open spec fn base_kind(k: ParamKind) -> ParamKind {
    match k {
        ParamKind::Conditional { inner, .. } => *inner,
        _ => k,
    }
}

/// The natural text of a plain value against kind `k`: a real as its text, an
/// integer in decimal, a categorical index as the name of its choice.
pub open spec fn plain_text(k: ParamKind, v: ParamValue) -> Option<Seq<char>> {
    match v {
        ParamValue::Continuous(t) => Some(t@),
        ParamValue::Discrete(i) => Some(int_text(i as int)),
        ParamValue::Categorical(i) => choice_at(k, i as int),
        ParamValue::Conditional(_) => None,
    }
}

/// The argument that a value of a parameter of kind `k` gives its flag: its
/// natural text, also inside a conditional value that is present. An absent
/// conditional value gives none.
pub open spec fn value_text(k: ParamKind, v: ParamValue) -> Option<Seq<char>> {
    match v {
        ParamValue::Conditional(Some(b)) => plain_text(base_kind(k), *b),
        ParamValue::Conditional(None) => None,
        _ => plain_text(base_kind(k), v),
    }
}

/// A value that has no text for its kind: a categorical index without a
/// choice, or a conditional nested in a conditional.
pub open spec fn malformed(k: ParamKind, v: ParamValue) -> bool {
    !(v is Conditional && v->Conditional_0 is None) && value_text(k, v) is None
}

/// A parameter named `name` is active under `mode`: its name has no
/// namespace, or the namespace is `mode`.
pub open spec fn active_under(name: Seq<char>, mode: Seq<char>) -> bool {
    !is_namespaced(name) || namespace_of(name) == mode
}

/// The flags for the parameters at positions `1 .. n`, each `--<field>` then
/// its value, in declaration order; inactive parameters and values without
/// text give none.
pub open spec fn flags_upto(
    mode: Seq<char>,
    ds: Seq<ParamDomain>,
    vs: Seq<ParamValue>,
    n: int,
) -> Seq<Seq<char>>
    decreases n,
{
    if n <= 1 {
        Seq::empty()
    } else {
        let prev = flags_upto(mode, ds, vs, n - 1);
        let name = ds[n - 1].name@;
        let k = ds[n - 1].kind;
        let v = vs[n - 1];
        if active_under(name, mode) && value_text(k, v) is Some {
            prev + seq!["--"@ + field_of(name), value_text(k, v).unwrap()]
        } else {
            prev
        }
    }
}

/// The flags for a configuration: the parameters after the first, paired with
/// the values after the first, as far as both lists go.
pub open spec fn config_flags_spec(
    mode: Seq<char>,
    ds: Seq<ParamDomain>,
    vs: Seq<ParamValue>,
) -> Seq<Seq<char>> {
    flags_upto(mode, ds, vs, if ds.len() < vs.len() { ds.len() as int } else { vs.len() as int })
}

/// Some active parameter after the first has a malformed value.
pub open spec fn config_malformed(mode: Seq<char>, ds: Seq<ParamDomain>, vs: Seq<ParamValue>) -> bool {
    exists|i: int|
        1 <= i < ds.len() && i < vs.len() && active_under(ds[i].name@, mode) && malformed(
            ds[i].kind,
            vs[i],
        )
}

/// The mode that a configuration selects: the choice of the first
/// parameter, which is categorical, at the index that the first value gives.
pub open spec fn mode_of(ds: Seq<ParamDomain>, vs: Seq<ParamValue>) -> Option<Seq<char>> {
    if ds.len() > 0 && vs.len() > 0 && vs[0] is Categorical {
        choice_at(ds[0].kind, vs[0]->Categorical_0 as int)
    } else {
        None
    }
}

/// The full argument list of the evaluator process.
pub open spec fn invocation_args(
    mode: Seq<char>,
    problem: Seq<char>,
    data_dir: Seq<char>,
    output_dir: Seq<char>,
    seed: u32,
    epochs: u64,
    flags: Seq<Seq<char>>,
) -> Seq<Seq<char>> {
    seq![
        mode,
        problem,
        "--data_dir"@,
        data_dir,
        "--output_dir"@,
        output_dir,
        "--random_seed"@,
        int_text(seed as int),
        "--num_epochs"@,
        int_text(epochs as int),
    ] + flags
}

fn base_kind_of(k: &ParamKind) -> (r: &ParamKind)
    ensures
        *r == base_kind(*k),
{
    match k {
        ParamKind::Conditional { inner, .. } => &**inner,
        _ => k,
    }
}

fn plain_arg(k: &ParamKind, v: &ParamValue) -> (r: Option<String>)
    ensures
        r is Some == plain_text(*k, *v) is Some,
        r matches Some(s) ==> s@ == plain_text(*k, *v).unwrap(),
{
    match v {
        ParamValue::Continuous(t) => Some(t.clone()),
        ParamValue::Discrete(i) => Some(i64_text(*i)),
        ParamValue::Categorical(i) => match k {
            ParamKind::Categorical { choices } => if *i < choices.len() {
                Some(choices[*i].clone())
            } else {
                None
            },
            _ => None,
        },
        ParamValue::Conditional(_) => None,
    }
}

/// The argument that a value of a parameter of kind `k` gives its flag, if any.
pub fn value_arg(k: &ParamKind, v: &ParamValue) -> (r: Option<String>)
    ensures
        r is Some == value_text(*k, *v) is Some,
        r matches Some(s) ==> s@ == value_text(*k, *v).unwrap(),
{
    let b = base_kind_of(k);
    match v {
        ParamValue::Conditional(Some(inner)) => plain_arg(b, inner),
        ParamValue::Conditional(None) => None,
        _ => plain_arg(b, v),
    }
}

/// The flags that a configuration gives under `mode`: each parameter after
/// the first whose namespace, if it has one, is `mode`, as `--<field>
/// <value>` in the value's natural text; absent conditional values give none.
/// Fails where an active value has no text for its kind.
pub fn config_flags(mode: &String, ds: &Vec<ParamDomain>, vs: &Vec<ParamValue>) -> (r: Result<Vec<String>, Error>)
    ensures
        r is Err <==> config_malformed(mode@, ds@, vs@),
        r is Err ==> r == Err::<Vec<String>, Error>(Error::MalformedValue),
        r matches Ok(f) ==> views(f@) == config_flags_spec(mode@, ds@, vs@),
{
    let n: usize = if ds.len() < vs.len() {
        ds.len()
    } else {
        vs.len()
    };
    let mut r: Vec<String> = Vec::new();
    let mut k: usize = 1;
    if n == 0 {
        assert(views(r@) =~= config_flags_spec(mode@, ds@, vs@));
        return Ok(r);
    }
    while k < n
        invariant
            1 <= k <= n,
            n <= ds.len(),
            n <= vs.len(),
            n == (if ds.len() < vs.len() { ds.len() as int } else { vs.len() as int }),
            views(r@) == flags_upto(mode@, ds@, vs@, k as int),
            forall|i: int|
                1 <= i < k ==> !(active_under(ds@[i].name@, mode@) && malformed(ds@[i].kind, vs@[i])),
        decreases n - k,
    {
        let (ns, field) = split_name(ds[k].name.as_str());
        let active = match &ns {
            None => true,
            Some(x) => *x == *mode,
        };
        let ghost prev = r@;
        if active {
            match value_arg(&ds[k].kind, &vs[k]) {
                Some(text) => {
                    let mut flag = "--".to_string();
                    flag.append(field.as_str());
                    r.push(flag);
                    r.push(text);
                    assert(views(r@) =~= views(prev) + seq![
                        "--"@ + field_of(ds@[k as int].name@),
                        value_text(ds@[k as int].kind, vs@[k as int]).unwrap(),
                    ]);
                },
                None => {
                    let absent = match &vs[k] {
                        ParamValue::Conditional(None) => true,
                        _ => false,
                    };
                    if !absent {
                        assert(active_under(ds@[k as int].name@, mode@) && malformed(ds@[k as int].kind, vs@[k as int]));
                        return Err(Error::MalformedValue);
                    }
                },
            }
        }
        k += 1;
    }
    assert(!config_malformed(mode@, ds@, vs@));
    Ok(r)
}

/// Resolves the mode that a configuration selects.
pub fn resolve_mode(ds: &Vec<ParamDomain>, vs: &Vec<ParamValue>) -> (r: Result<String, Error>)
    ensures
        r is Ok <==> mode_of(ds@, vs@) is Some,
        r is Err ==> r == Err::<String, Error>(Error::UnresolvedMode),
        r matches Ok(m) ==> m@ == mode_of(ds@, vs@).unwrap(),
{
    if ds.len() == 0 || vs.len() == 0 {
        return Err(Error::UnresolvedMode);
    }
    match (&vs[0], &ds[0].kind) {
        (ParamValue::Categorical(i), ParamKind::Categorical { choices }) => {
            if *i < choices.len() {
                Ok(choices[*i].clone())
            } else {
                Err(Error::UnresolvedMode)
            }
        },
        _ => Err(Error::UnresolvedMode),
    }
}

/// The full argument list of the evaluator process.
pub fn build_args(
    mode: &String,
    problem: &String,
    data_dir: &String,
    output_dir: &String,
    seed: u32,
    epochs: u64,
    flags: Vec<String>,
) -> (r: Vec<String>)
    ensures
        views(r@) == invocation_args(
            mode@,
            problem@,
            data_dir@,
            output_dir@,
            seed,
            epochs,
            views(flags@),
        ),
{
    let mut r: Vec<String> = Vec::new();
    r.push(mode.clone());
    r.push(problem.clone());
    r.push("--data_dir".to_string());
    r.push(data_dir.clone());
    r.push("--output_dir".to_string());
    r.push(output_dir.clone());
    r.push("--random_seed".to_string());
    r.push(u64_text(seed as u64));
    r.push("--num_epochs".to_string());
    r.push(u64_text(epochs));
    let ghost head = r@;
    let mut i: usize = 0;
    while i < flags.len()
        invariant
            i <= flags.len(),
            r@ == head + flags@.take(i as int),
        decreases flags.len() - i,
    {
        r.push(flags[i].clone());
        i += 1;
        assert(r@ =~= head + flags@.take(i as int));
    }
    assert(flags@.take(flags.len() as int) =~= flags@);
    assert(views(r@) =~= invocation_args(
        mode@,
        problem@,
        data_dir@,
        output_dir@,
        seed,
        epochs,
        views(flags@),
    ));
    r
}

} // verus!
