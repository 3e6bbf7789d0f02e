use vstd::prelude::*;

verus! {

/// Why a route declaration or a route expansion was refused.
#[derive(Debug)]
pub enum RouteError {
    /// The route template has an unmatched brace or a placeholder that is not an identifier.
    MalformedRoute,
    /// The command route names this variable twice.
    DuplicateVariable(String),
    /// The route template uses this placeholder, which the command route does not declare.
    UnknownPlaceholder(String),
    /// The command route declares this variable, which the route template never uses.
    UnusedVariable(String),
    /// No value was supplied for this placeholder.
    MissingValue(String),
}

/// The character views of a sequence of strings.
pub open spec fn strings(v: Seq<String>) -> Seq<Seq<char>> {
    v.map_values(|x: String| x@)
}

pub open spec fn is_name_start(c: char) -> bool {
    ('a' <= c && c <= 'z') || ('A' <= c && c <= 'Z') || c == '_'
}

pub open spec fn is_name_char(c: char) -> bool {
    is_name_start(c) || ('0' <= c && c <= '9')
}

/// A placeholder name: an identifier.
pub open spec fn is_name(n: Seq<char>) -> bool {
    &&& n.len() > 0
    &&& is_name_start(n[0])
    &&& forall|i: int| 0 <= i < n.len() ==> is_name_char(#[trigger] n[i])
}

/// One character of a route template, read in the state left by the characters before it.
/// A state is the placeholder names closed so far and the placeholder still open, if any.
pub open spec fn scan_step(names: Seq<Seq<char>>, open: Option<Seq<char>>, c: char) -> Option<
    (Seq<Seq<char>>, Option<Seq<char>>),
> {
    match open {
        None => {
            if c == '{' {
                Some((names, Some(Seq::empty())))
            } else if c == '}' {
                None
            } else {
                Some((names, None))
            }
        },
        Some(name) => {
            if c == '}' {
                if is_name(name) {
                    Some((names.push(name), None))
                } else {
                    None
                }
            } else if is_name_char(c) {
                Some((names, Some(name.push(c))))
            } else {
                None
            }
        },
    }
}

/// The state after reading `s`; `None` once a brace is out of place.
pub open spec fn scan(s: Seq<char>) -> Option<(Seq<Seq<char>>, Option<Seq<char>>)>
    decreases s.len(),
{
    if s.len() == 0 {
        Some((Seq::empty(), None))
    } else {
        match scan(s.drop_last()) {
            Some((names, open)) => scan_step(names, open, s.last()),
            None => None,
        }
    }
}

/// The placeholder names of a route template, in order of appearance, or `None` when
/// the template is malformed. A placeholder is an identifier in braces, as in
/// `/projects/{id}/issues/{iid}`.
pub open spec fn placeholders(s: Seq<char>) -> Option<Seq<Seq<char>>> {
    match scan(s) {
        Some((names, None)) => Some(names),
        _ => None,
    }
}

/// The value given for `name`: the first pair whose key is `name`.
pub open spec fn value_for(values: Seq<(String, String)>, name: Seq<char>) -> Option<Seq<char>>
    decreases values.len(),
{
    if values.len() == 0 {
        None
    } else if values[0].0@ == name {
        Some(values[0].1@)
    } else {
        value_for(values.drop_first(), name)
    }
}

/// As `scan_step`, with the text written so far in place of the names.
pub open spec fn fill_step(
    out: Seq<char>,
    open: Option<Seq<char>>,
    c: char,
    values: Seq<(String, String)>,
) -> Option<(Seq<char>, Option<Seq<char>>)> {
    match open {
        None => {
            if c == '{' {
                Some((out, Some(Seq::empty())))
            } else if c == '}' {
                None
            } else {
                Some((out.push(c), None))
            }
        },
        Some(name) => {
            if c == '}' {
                if is_name(name) {
                    match value_for(values, name) {
                        Some(v) => Some((out + v, None)),
                        None => None,
                    }
                } else {
                    None
                }
            } else if is_name_char(c) {
                Some((out, Some(name.push(c))))
            } else {
                None
            }
        },
    }
}

pub open spec fn fill(s: Seq<char>, values: Seq<(String, String)>) -> Option<
    (Seq<char>, Option<Seq<char>>),
>
    decreases s.len(),
{
    if s.len() == 0 {
        Some((Seq::empty(), None))
    } else {
        match fill(s.drop_last(), values) {
            Some((out, open)) => fill_step(out, open, s.last(), values),
            None => None,
        }
    }
}

/// The template with each placeholder replaced by its value; `None` when the template
/// is malformed or a placeholder has no value.
pub open spec fn expand(s: Seq<char>, values: Seq<(String, String)>) -> Option<Seq<char>> {
    match fill(s, values) {
        Some((out, None)) => Some(out),
        _ => None,
    }
}

/// The pieces of `s` between slashes, as `str::split('/')` yields them.
pub open spec fn segments(s: Seq<char>) -> Seq<Seq<char>>
    decreases s.len(),
{
    if s.len() == 0 {
        seq![Seq::empty()]
    } else {
        let prev = segments(s.drop_last());
        if s.last() == '/' {
            prev.push(Seq::empty())
        } else {
            prev.update(prev.len() - 1, prev.last().push(s.last()))
        }
    }
}

/// A command-route segment that stands for a value: `{name}`.
pub open spec fn is_variable(seg: Seq<char>) -> bool {
    seg.len() >= 2 && seg[0] == '{' && seg.last() == '}'
}

pub open spec fn variable_name(seg: Seq<char>) -> Seq<char> {
    seg.subrange(1, seg.len() - 1)
}

pub open spec fn variables_in(segs: Seq<Seq<char>>) -> Seq<Seq<char>>
    decreases segs.len(),
{
    if segs.len() == 0 {
        Seq::empty()
    } else {
        let prev = variables_in(segs.drop_last());
        if is_variable(segs.last()) {
            prev.push(variable_name(segs.last()))
        } else {
            prev
        }
    }
}

/// The variables of a command route, in order: the names of its `{name}` segments.
pub open spec fn cli_variables(s: Seq<char>) -> Seq<Seq<char>> {
    variables_in(segments(s))
}

proof fn lemma_scan_stays_failed(s: Seq<char>, k: int)
    requires
        0 <= k <= s.len(),
        scan(s.subrange(0, k)) is None,
    ensures
        scan(s) is None,
    decreases s.len() - k,
{
    if k < s.len() {
        assert(s.subrange(0, k + 1).drop_last() =~= s.subrange(0, k));
        lemma_scan_stays_failed(s, k + 1);
    } else {
        assert(s.subrange(0, k) =~= s);
    }
}

proof fn lemma_fill_stays_failed(s: Seq<char>, values: Seq<(String, String)>, k: int)
    requires
        0 <= k <= s.len(),
        fill(s.subrange(0, k), values) is None,
    ensures
        fill(s, values) is None,
    decreases s.len() - k,
{
    if k < s.len() {
        assert(s.subrange(0, k + 1).drop_last() =~= s.subrange(0, k));
        lemma_fill_stays_failed(s, values, k + 1);
    } else {
        assert(s.subrange(0, k) =~= s);
    }
}

pub open spec fn all_valued(names: Seq<Seq<char>>, values: Seq<(String, String)>) -> bool {
    forall|k: int| 0 <= k < names.len() ==> (#[trigger] value_for(values, names[k])) is Some
}

proof fn lemma_fill_follows_scan(s: Seq<char>, values: Seq<(String, String)>)
    ensures
        fill(s, values) is Some <==> (scan(s) is Some && all_valued(scan(s).unwrap().0, values)),
        fill(s, values) is Some ==> fill(s, values).unwrap().1 == scan(s).unwrap().1,
    decreases s.len(),
{
    if s.len() > 0 {
        lemma_fill_follows_scan(s.drop_last(), values);
        if scan(s.drop_last()) is Some {
            let names = scan(s.drop_last()).unwrap().0;
            let open = scan(s.drop_last()).unwrap().1;
            if let Some(name) = open {
                if s.last() == '}' && is_name(name) {
                    let pushed = names.push(name);
                    if all_valued(names, values) && value_for(values, name) is Some {
                        assert forall|k: int| 0 <= k < pushed.len() implies (#[trigger] value_for(
                            values,
                            pushed[k],
                        )) is Some by {
                            if k < names.len() {
                                assert(pushed[k] == names[k]);
                            }
                        }
                    }
                    if all_valued(pushed, values) {
                        assert forall|k: int| 0 <= k < names.len() implies (#[trigger] value_for(
                            values,
                            names[k],
                        )) is Some by {
                            assert(pushed[k] == names[k]);
                        }
                        assert(pushed[names.len() as int] == name);
                    }
                }
            }
        }
    }
}

/// A template expands exactly when it is well formed and every one of its placeholders
/// has a value.
pub proof fn lemma_expand_defined(s: Seq<char>, values: Seq<(String, String)>)
    ensures
        expand(s, values) is Some <==> (placeholders(s) is Some && all_valued(
            placeholders(s).unwrap(),
            values,
        )),
{
    lemma_fill_follows_scan(s, values);
}

fn name_start(c: char) -> (r: bool)
    ensures
        r == is_name_start(c),
{
    ('a' <= c && c <= 'z') || ('A' <= c && c <= 'Z') || c == '_'
}

fn name_char(c: char) -> (r: bool)
    ensures
        r == is_name_char(c),
{
    name_start(c) || ('0' <= c && c <= '9')
}

/// The placeholder name read so far, when one is open.
spec fn open_view(s: Seq<char>, open: Option<usize>, i: int) -> Option<Seq<char>> {
    match open {
        Some(st) => Some(s.subrange(st as int, i)),
        None => None,
    }
}

/// An open placeholder holds name characters only.
spec fn open_ok(s: Seq<char>, open: Option<usize>, i: int) -> bool {
    match open {
        Some(st) => st <= i && forall|k: int| st <= k < i ==> is_name_char(#[trigger] s[k]),
        None => true,
    }
}

/// The placeholder names of a route template, in order of appearance.
pub fn placeholders_of(template: &str) -> (r: Result<Vec<String>, RouteError>)
    ensures
        match r {
            Ok(v) => placeholders(template@) == Some(strings(v@)),
            Err(e) => placeholders(template@) is None && e is MalformedRoute,
        },
{
    let n = template.unicode_len();
    let mut names: Vec<String> = Vec::new();
    let mut open: Option<usize> = None;
    let mut i: usize = 0;
    while i < n
        invariant
            n == template@.len(),
            i <= n,
            open_ok(template@, open, i as int),
            scan(template@.subrange(0, i as int)) == Some(
                (strings(names@), open_view(template@, open, i as int)),
            ),
        decreases n - i,
    {
        let c = template.get_char(i);
        let ghost s = template@;
        assert(s.subrange(0, i + 1).drop_last() =~= s.subrange(0, i as int));
        assert(s.subrange(0, i + 1).last() == c);
        match open {
            None => {
                if c == '{' {
                    open = Some(i + 1);
                    assert(s.subrange(i + 1, i + 1) =~= Seq::<char>::empty());
                } else if c == '}' {
                    proof {
                        lemma_scan_stays_failed(s, i + 1);
                    }
                    return Err(RouteError::MalformedRoute);
                }
            },
            Some(st) => {
                if c == '}' {
                    if st < i && name_start(template.get_char(st)) {
                        let name = String::from_str(template.substring_char(st, i));
                        let ghost old_names = names@;
                        names.push(name);
                        assert(strings(names@) =~= strings(old_names).push(s.subrange(
                            st as int,
                            i as int,
                        )));
                        open = None;
                    } else {
                        proof {
                            lemma_scan_stays_failed(s, i + 1);
                        }
                        return Err(RouteError::MalformedRoute);
                    }
                } else if name_char(c) {
                    assert(s.subrange(st as int, i + 1) =~= s.subrange(st as int, i as int).push(
                        c,
                    ));
                } else {
                    proof {
                        lemma_scan_stays_failed(s, i + 1);
                    }
                    return Err(RouteError::MalformedRoute);
                }
            },
        }
        i = i + 1;
    }
    assert(template@.subrange(0, n as int) =~= template@);
    if open.is_some() {
        return Err(RouteError::MalformedRoute);
    }
    Ok(names)
}

fn value_index(values: &Vec<(String, String)>, name: &String) -> (r: Option<usize>)
    ensures
        match r {
            Some(k) => k < values@.len() && value_for(values@, name@) == Some(values@[k as int].1@),
            None => value_for(values@, name@) is None,
        },
{
    let mut j: usize = 0;
    assert(values@.subrange(0, values@.len() as int) =~= values@);
    while j < values.len()
        invariant
            j <= values@.len(),
            value_for(values@, name@) == value_for(values@.subrange(j as int, values@.len() as int), name@),
        decreases values@.len() - j,
    {
        let ghost rest = values@.subrange(j as int, values@.len() as int);
        assert(rest.drop_first() =~= values@.subrange(j + 1, values@.len() as int));
        assert(rest[0] == values@[j as int]);
        if values[j].0 == *name {
            return Some(j);
        }
        j = j + 1;
    }
    None
}

/// Writes `base` followed by the template with each placeholder replaced by its value.
pub fn expand_route(template: &str, base: &str, values: &Vec<(String, String)>) -> (r: Result<
    String,
    RouteError,
>)
    ensures
        match r {
            Ok(u) => expand(template@, values@) is Some && u@ == base@ + expand(
                template@,
                values@,
            ).unwrap(),
            Err(RouteError::MissingValue(name)) => expand(template@, values@) is None && value_for(
                values@,
                name@,
            ) is None,
            Err(RouteError::MalformedRoute) => expand(template@, values@) is None && placeholders(
                template@,
            ) is None,
            Err(_) => false,
        },
{
    let n = template.unicode_len();
    let mut out = String::from_str(base);
    let mut open: Option<usize> = None;
    let mut i: usize = 0;
    while i < n
        invariant
            n == template@.len(),
            i <= n,
            open_ok(template@, open, i as int),
            fill(template@.subrange(0, i as int), values@) is Some,
            out@ == base@ + fill(template@.subrange(0, i as int), values@).unwrap().0,
            fill(template@.subrange(0, i as int), values@).unwrap().1 == open_view(
                template@,
                open,
                i as int,
            ),
        decreases n - i,
    {
        let c = template.get_char(i);
        let ghost s = template@;
        let ghost prev = fill(s.subrange(0, i as int), values@).unwrap().0;
        assert(s.subrange(0, i + 1).drop_last() =~= s.subrange(0, i as int));
        assert(s.subrange(0, i + 1).last() == c);
        proof {
            lemma_fill_follows_scan(s.subrange(0, i as int), values@);
            lemma_fill_follows_scan(s.subrange(0, i + 1), values@);
        }
        match open {
            None => {
                if c == '{' {
                    open = Some(i + 1);
                    assert(s.subrange(i + 1, i + 1) =~= Seq::<char>::empty());
                } else if c == '}' {
                    proof {
                        lemma_fill_stays_failed(s, values@, i + 1);
                        lemma_scan_stays_failed(s, i + 1);
                    }
                    return Err(RouteError::MalformedRoute);
                } else {
                    out.append(template.substring_char(i, i + 1));
                    assert(s.subrange(i as int, i + 1) =~= seq![c]);
                    assert(base@ + prev.push(c) =~= base@ + prev + seq![c]);
                }
            },
            Some(st) => {
                if c == '}' {
                    if st < i && name_start(template.get_char(st)) {
                        let name = String::from_str(template.substring_char(st, i));
                        match value_index(values, &name) {
                            Some(k) => {
                                out.append(values[k].1.as_str());
                                let ghost v = values@[k as int].1@;
                                assert(base@ + (prev + v) =~= base@ + prev + v);
                                open = None;
                            },
                            None => {
                                proof {
                                    lemma_fill_stays_failed(s, values@, i + 1);
                                }
                                return Err(RouteError::MissingValue(name));
                            },
                        }
                    } else {
                        proof {
                            lemma_fill_stays_failed(s, values@, i + 1);
                            lemma_scan_stays_failed(s, i + 1);
                        }
                        return Err(RouteError::MalformedRoute);
                    }
                } else if name_char(c) {
                    assert(s.subrange(st as int, i + 1) =~= s.subrange(st as int, i as int).push(
                        c,
                    ));
                } else {
                    proof {
                        lemma_fill_stays_failed(s, values@, i + 1);
                        lemma_scan_stays_failed(s, i + 1);
                    }
                    return Err(RouteError::MalformedRoute);
                }
            },
        }
        i = i + 1;
    }
    assert(template@.subrange(0, n as int) =~= template@);
    if open.is_some() {
        proof {
            lemma_fill_follows_scan(template@, values@);
        }
        return Err(RouteError::MalformedRoute);
    }
    Ok(out)
}

fn segment_variable(s: &str, start: usize, end: usize) -> (r: Option<String>)
    requires
        start <= end <= s@.len(),
    ensures
        match r {
            Some(v) => is_variable(s@.subrange(start as int, end as int)) && v@ == variable_name(
                s@.subrange(start as int, end as int),
            ),
            None => !is_variable(s@.subrange(start as int, end as int)),
        },
{
    let ghost seg = s@.subrange(start as int, end as int);
    if end - start >= 2 && s.get_char(start) == '{' && s.get_char(end - 1) == '}' {
        assert(seg.subrange(1, seg.len() - 1) =~= s@.subrange(start + 1, end - 1));
        Some(String::from_str(s.substring_char(start + 1, end - 1)))
    } else {
        None
    }
}

/// The variables of a command route, in order: the names of its `{name}` segments.
pub fn cli_variables_of(cli_route: &str) -> (r: Vec<String>)
    ensures
        strings(r@) == cli_variables(cli_route@),
{
    let n = cli_route.unicode_len();
    let mut vars: Vec<String> = Vec::new();
    let mut start: usize = 0;
    let mut i: usize = 0;
    assert(cli_route@.subrange(0, 0) =~= Seq::<char>::empty());
    assert(strings(vars@) =~= Seq::<Seq<char>>::empty());
    while i < n
        invariant
            n == cli_route@.len(),
            start <= i <= n,
            segments(cli_route@.subrange(0, i as int)).len() >= 1,
            segments(cli_route@.subrange(0, i as int)).last() == cli_route@.subrange(
                start as int,
                i as int,
            ),
            strings(vars@) == variables_in(segments(cli_route@.subrange(0, i as int)).drop_last()),
        decreases n - i,
    {
        let c = cli_route.get_char(i);
        let ghost s = cli_route@;
        let ghost prev = segments(s.subrange(0, i as int));
        assert(s.subrange(0, i + 1).drop_last() =~= s.subrange(0, i as int));
        assert(s.subrange(0, i + 1).last() == c);
        if c == '/' {
            let ghost old_vars = vars@;
            match segment_variable(cli_route, start, i) {
                Some(v) => {
                    vars.push(v);
                    assert(strings(vars@) =~= strings(old_vars).push(v@));
                },
                None => {},
            }
            assert(segments(s.subrange(0, i + 1)).drop_last() =~= prev);
            assert(prev.drop_last().push(prev.last()) =~= prev);
            start = i + 1;
            assert(s.subrange(i + 1, i + 1) =~= Seq::<char>::empty());
        } else {
            assert(segments(s.subrange(0, i + 1)).drop_last() =~= prev.drop_last());
            assert(s.subrange(start as int, i + 1) =~= s.subrange(start as int, i as int).push(c));
        }
        i = i + 1;
    }
    let ghost segs = segments(cli_route@);
    assert(cli_route@.subrange(0, n as int) =~= cli_route@);
    assert(segs.drop_last().push(segs.last()) =~= segs);
    let ghost old_vars = vars@;
    match segment_variable(cli_route, start, n) {
        Some(v) => {
            vars.push(v);
            assert(strings(vars@) =~= strings(old_vars).push(v@));
        },
        None => {},
    }
    vars
}

} // verus!
