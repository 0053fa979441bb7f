use vstd::prelude::*;

verus! {

/// `s[i..=k]` is a placeholder `${NAME}`: `NAME` is non-empty, holds no `}`,
/// and `k` is the first `}` after the opening `${`.
pub open spec fn placeholder_at(s: Seq<char>, i: int, k: int) -> bool {
    &&& 0 <= i
    &&& i + 2 < k < s.len()
    &&& s[i] == '$'
    &&& s[i + 1] == '{'
    &&& s[k] == '}'
    &&& forall|j: int| i + 2 <= j < k ==> s[j] != '}'
}

/// A placeholder starts at position `i` of `s`.
pub open spec fn starts_placeholder(s: Seq<char>, i: int) -> bool {
    exists|k: int| placeholder_at(s, i, k)
}

/// `s` holds no placeholder anywhere.
pub open spec fn no_placeholder(s: Seq<char>) -> bool {
    forall|i: int| !starts_placeholder(s, i)
}

/// An environment snapshot as pairs of variable name and value.
pub open spec fn env_view(env: Seq<(String, String)>) -> Seq<(Seq<char>, Seq<char>)> {
    env.map_values(|p: (String, String)| (p.0@, p.1@))
}

/// The value of the variable `name` in the snapshot: its first entry.
pub open spec fn env_lookup(env: Seq<(Seq<char>, Seq<char>)>, name: Seq<char>) -> Option<Seq<char>>
    decreases env.len(),
{
    if env.len() == 0 {
        None
    } else if env[0].0 == name {
        Some(env[0].1)
    } else {
        env_lookup(env.drop_first(), name)
    }
}

/// The placeholder text `${name}`.
pub open spec fn placeholder_text(name: Seq<char>) -> Seq<char> {
    seq!['$', '{'] + name + seq!['}']
}

/// What the placeholder `${name}` becomes: the variable's value, or the
/// placeholder itself when the variable is unset.
pub open spec fn replacement(name: Seq<char>, env: Seq<(Seq<char>, Seq<char>)>) -> Seq<char> {
    match env_lookup(env, name) {
        Some(v) => v,
        None => placeholder_text(name),
    }
}

/// `s` with every placeholder replaced, scanning left to right in one pass:
/// a replacement is never scanned again.
pub open spec fn substitute(s: Seq<char>, env: Seq<(Seq<char>, Seq<char>)>) -> Seq<char>
    decreases s.len(),
{
    if s.len() == 0 {
        Seq::empty()
    } else if starts_placeholder(s, 0) {
        let k = choose|k: int| placeholder_at(s, 0, k);
        replacement(s.subrange(2, k), env) + substitute(s.subrange(k + 1, s.len() as int), env)
    } else {
        seq![s[0]] + substitute(s.drop_first(), env)
    }
}

pub open spec fn strings_view(v: Seq<String>) -> Seq<Seq<char>> {
    v.map_values(|s: String| s@)
}

/// Every argument of `args` substituted.
pub open spec fn substitute_all(args: Seq<Seq<char>>, env: Seq<(Seq<char>, Seq<char>)>) -> Seq<Seq<char>> {
    args.map_values(|a: Seq<char>| substitute(a, env))
}

/// Relies on regex's `Regex::captures` with the pattern `\$\{([^}]+)\}`:
/// the leftmost match, split into the text before it, the captured name,
/// and the text after it.
#[verifier::external_body]
fn first_placeholder(s: &str) -> (r: Option<(String, String, String)>)
    ensures
        r is None ==> no_placeholder(s@),
        r matches Some(t) ==> {
            &&& s@ == t.0@ + placeholder_text(t.1@) + t.2@
            &&& placeholder_at(s@, t.0@.len() as int, (t.0@.len() + t.1@.len() + 2) as int)
            &&& forall|i: int| 0 <= i < t.0@.len() ==> !starts_placeholder(s@, i)
        },
{
    let re = regex::Regex::new(r"\$\{([^}]+)\}").unwrap();
    match re.captures(s) {
        Some(c) => {
            let whole = c.get(0).unwrap();
            Some((s[..whole.start()].to_string(), c[1].to_string(), s[whole.end()..].to_string()))
        },
        None => None,
    }
}

proof fn lemma_shift(s: Seq<char>, p: int, i: int, k: int)
    requires
        0 <= p <= s.len(),
        0 <= i,
    ensures
        placeholder_at(s, p + i, p + k) == placeholder_at(s.subrange(p, s.len() as int), i, k),
{
    let t = s.subrange(p, s.len() as int);
    if placeholder_at(s, p + i, p + k) {
        assert forall|j: int| i + 2 <= j < k implies t[j] != '}' by {
            assert(s[p + j] != '}');
        }
    }
    if placeholder_at(t, i, k) {
        assert forall|j: int| p + i + 2 <= j < p + k implies s[j] != '}' by {
            assert(t[j - p] != '}');
        }
    }
}

proof fn lemma_placeholder_unique(s: Seq<char>, i: int, k1: int, k2: int)
    requires
        placeholder_at(s, i, k1),
        placeholder_at(s, i, k2),
    ensures
        k1 == k2,
{
    if k1 < k2 {
        assert(s[k1] != '}');
    } else if k2 < k1 {
        assert(s[k2] != '}');
    }
}

/// Text before the first placeholder is copied unchanged.
proof fn lemma_plain_prefix(s: Seq<char>, p: int, env: Seq<(Seq<char>, Seq<char>)>)
    requires
        0 <= p <= s.len(),
        forall|i: int| 0 <= i < p ==> !starts_placeholder(s, i),
    ensures
        substitute(s, env) == s.subrange(0, p) + substitute(s.subrange(p, s.len() as int), env),
    decreases p,
{
    if p == 0 {
        assert(s.subrange(0, 0) + s.subrange(0, s.len() as int) =~= s);
        assert(s.subrange(0, s.len() as int) =~= s);
        assert(s.subrange(0, 0) + substitute(s, env) =~= substitute(s, env));
    } else {
        let t = s.drop_first();
        assert(!starts_placeholder(s, 0));
        assert forall|i: int| 0 <= i < p - 1 implies !starts_placeholder(t, i) by {
            if starts_placeholder(t, i) {
                let k = choose|k: int| placeholder_at(t, i, k);
                assert(t =~= s.subrange(1, s.len() as int));
                lemma_shift(s, 1, i, k);
                assert(placeholder_at(s, 1 + i, 1 + k));
                assert(starts_placeholder(s, 1 + i));
                assert(!starts_placeholder(s, 1 + i));
            }
        }
        lemma_plain_prefix(t, p - 1, env);
        assert(t.subrange(p - 1, t.len() as int) =~= s.subrange(p, s.len() as int));
        assert(seq![s[0]] + t.subrange(0, p - 1) =~= s.subrange(0, p));
        assert(seq![s[0]] + (t.subrange(0, p - 1) + substitute(s.subrange(p, s.len() as int), env))
            =~= s.subrange(0, p) + substitute(s.subrange(p, s.len() as int), env));
    }
}

/// A placeholder at the start is replaced and the scan goes on after it.
proof fn lemma_leading_placeholder(
    name: Seq<char>,
    rest: Seq<char>,
    env: Seq<(Seq<char>, Seq<char>)>,
)
    requires
        placeholder_at(placeholder_text(name) + rest, 0, (name.len() + 2) as int),
    ensures
        substitute(placeholder_text(name) + rest, env) == replacement(name, env) + substitute(rest, env),
{
    let t = placeholder_text(name) + rest;
    let k0 = (name.len() + 2) as int;
    assert(starts_placeholder(t, 0));
    let k = choose|k: int| placeholder_at(t, 0, k);
    lemma_placeholder_unique(t, 0, k, k0);
    assert(t.subrange(2, k) =~= name);
    assert(t.subrange(k + 1, t.len() as int) =~= rest);
}

/// Text without placeholders is left as it is.
pub proof fn lemma_no_placeholder_unchanged(s: Seq<char>, env: Seq<(Seq<char>, Seq<char>)>)
    requires
        no_placeholder(s),
    ensures
        substitute(s, env) == s,
{
    lemma_plain_prefix(s, s.len() as int, env);
    assert(s.subrange(0, s.len() as int) =~= s);
    assert(s.subrange(s.len() as int, s.len() as int).len() == 0);
    assert(s + Seq::<char>::empty() =~= s);
}

/// An argument list in which no argument holds a placeholder is returned
/// unchanged by substitution, whatever the environment.
pub proof fn law_substitute_all_without_placeholders(
    args: Seq<Seq<char>>,
    env: Seq<(Seq<char>, Seq<char>)>,
)
    requires
        forall|i: int| 0 <= i < args.len() ==> no_placeholder(#[trigger] args[i]),
    ensures
        substitute_all(args, env) == args,
{
    assert forall|i: int| 0 <= i < args.len() implies substitute_all(args, env)[i] == args[i] by {
        lemma_no_placeholder_unchanged(args[i], env);
    }
    assert(substitute_all(args, env) =~= args);
}

/// The value of `name` in the snapshot `env`, if it is set there.
pub fn lookup_var(env: &Vec<(String, String)>, name: &String) -> (r: Option<String>)
    ensures
        r matches Some(v) ==> env_lookup(env_view(env@), name@) == Some(v@),
        r is None ==> env_lookup(env_view(env@), name@) is None,
{
    let ghost ev = env_view(env@);
    let mut i: usize = 0;
    assert(ev.subrange(0, ev.len() as int) =~= ev);
    while i < env.len()
        invariant
            ev == env_view(env@),
            i <= env.len(),
            env_lookup(ev, name@) == env_lookup(ev.subrange(i as int, ev.len() as int), name@),
        decreases env.len() - i,
    {
        let ghost rest = ev.subrange(i as int, ev.len() as int);
        assert(rest[0] == (env@[i as int].0@, env@[i as int].1@));
        if env[i].0 == *name {
            return Some(env[i].1.clone());
        }
        assert(rest.drop_first() =~= ev.subrange(i + 1, ev.len() as int));
        i = i + 1;
    }
    None
}

/// One argument with every `${NAME}` placeholder replaced by the value of
/// `NAME` in `env`; placeholders of unset variables are kept as they are.
pub fn substitute_arg(arg: &str, env: &Vec<(String, String)>) -> (r: String)
    ensures
        r@ == substitute(arg@, env_view(env@)),
{
    let ghost ev = env_view(env@);
    let mut out = String::new();
    let mut rest = String::from_str(arg);
    loop
        invariant
            ev == env_view(env@),
            out@ + substitute(rest@, ev) == substitute(arg@, ev),
        decreases rest@.len(),
    {
        match first_placeholder(rest.as_str()) {
            None => {
                proof {
                    lemma_no_placeholder_unchanged(rest@, ev);
                }
                out.append(rest.as_str());
                return out;
            },
            Some((before, name, after)) => {
                let ghost s = rest@;
                let ghost p = before@.len() as int;
                proof {
                    lemma_plain_prefix(s, p, ev);
                    assert(s.subrange(0, p) =~= before@);
                    let t = s.subrange(p, s.len() as int);
                    assert(t =~= placeholder_text(name@) + after@);
                    lemma_shift(s, p, 0, (name@.len() + 2) as int);
                    lemma_leading_placeholder(name@, after@, ev);
                }
                out.append(before.as_str());
                match lookup_var(env, &name) {
                    Some(v) => out.append(v.as_str()),
                    None => {
                        out.append("${");
                        out.append(name.as_str());
                        out.append("}");
                        proof {
                            reveal_strlit("${");
                            reveal_strlit("}");
                        }
                    },
                }
                assert(out@ + substitute(after@, ev) == substitute(arg@, ev)) by {
                    assert(out@ + substitute(after@, ev) =~= (out@.subrange(0, out@.len() as int)) + substitute(after@, ev));
                }
                rest = after;
            },
        }
    }
}

/// Every argument of `args` with its placeholders substituted from `env`;
/// the list keeps its length and order.
pub fn substitute_params(args: &Vec<String>, env: &Vec<(String, String)>) -> (r: Vec<String>)
    ensures
        strings_view(r@) == substitute_all(strings_view(args@), env_view(env@)),
{
    let mut r: Vec<String> = Vec::new();
    let mut i: usize = 0;
    while i < args.len()
        invariant
            i <= args.len(),
            r@.len() == i,
            forall|j: int| 0 <= j < i ==> (#[trigger] r@[j])@ == substitute(args@[j]@, env_view(env@)),
        decreases args.len() - i,
    {
        let a = substitute_arg(args[i].as_str(), env);
        r.push(a);
        i = i + 1;
    }
    assert(strings_view(r@) =~= substitute_all(strings_view(args@), env_view(env@)));
    r
}

} // verus!
