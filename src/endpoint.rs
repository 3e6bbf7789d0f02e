use vstd::prelude::*;

use crate::route::{
    all_valued, cli_variables, cli_variables_of, expand, expand_route, lemma_expand_defined,
    placeholders, placeholders_of, strings, value_for, RouteError,
};

verus! {

/// The HTTP method of an endpoint.
#[derive(Clone, Copy, Debug, PartialEq, Eq, Structural)]
pub enum Method {
    Get,
    Post,
    Put,
    Delete,
}

pub open spec fn method_name(m: Method) -> Seq<char> {
    match m {
        Method::Get => "GET"@,
        Method::Post => "POST"@,
        Method::Put => "PUT"@,
        Method::Delete => "DELETE"@,
    }
}

impl Method {
    /// The method's name on the wire.
    pub fn as_str(&self) -> (r: &'static str)
        ensures
            r@ == method_name(*self),
    {
        match self {
            Method::Get => "GET",
            Method::Post => "POST",
            Method::Put => "PUT",
            Method::Delete => "DELETE",
        }
    }
}

/// The response statuses that endpoint declarations name.
#[derive(Clone, Copy, Debug, PartialEq, Eq, Structural)]
pub enum Status {
    /// 200 OK.
    Success,
    Created,
    Accepted,
    NoContent,
    NotModified,
    Forbidden,
    NotFound,
}

pub open spec fn status_code(s: Status) -> u16 {
    match s {
        Status::Success => 200,
        Status::Created => 201,
        Status::Accepted => 202,
        Status::NoContent => 204,
        Status::NotModified => 304,
        Status::Forbidden => 403,
        Status::NotFound => 404,
    }
}

impl Status {
    /// The numeric HTTP status code.
    pub fn code(&self) -> (r: u16)
        ensures
            r == status_code(*self),
    {
        match self {
            Status::Success => 200,
            Status::Created => 201,
            Status::Accepted => 202,
            Status::NoContent => 204,
            Status::NotModified => 304,
            Status::Forbidden => 403,
            Status::NotFound => 404,
        }
    }

    /// The status with this numeric code, if it is one of the named ones.
    pub fn from_code(code: u16) -> (r: Option<Status>)
        ensures
            r == status_of_code(code),
    {
        match code {
            200 => Some(Status::Success),
            201 => Some(Status::Created),
            202 => Some(Status::Accepted),
            204 => Some(Status::NoContent),
            304 => Some(Status::NotModified),
            403 => Some(Status::Forbidden),
            404 => Some(Status::NotFound),
            _ => None,
        }
    }
}

pub open spec fn status_of_code(code: u16) -> Option<Status> {
    if code == 200 {
        Some(Status::Success)
    } else if code == 201 {
        Some(Status::Created)
    } else if code == 202 {
        Some(Status::Accepted)
    } else if code == 204 {
        Some(Status::NoContent)
    } else if code == 304 {
        Some(Status::NotModified)
    } else if code == 403 {
        Some(Status::Forbidden)
    } else if code == 404 {
        Some(Status::NotFound)
    } else {
        None
    }
}

/// Reading a status back from its code gives the same status, and a code that
/// reads as a status is that status's code.
pub proof fn lemma_status_code_round_trip(s: Status, code: u16)
    ensures
        status_of_code(status_code(s)) == Some(s),
        status_of_code(code) matches Some(t) ==> status_code(t) == code,
{
}

/// No two positions of `names` hold the same name.
pub open spec fn distinct(names: Seq<Seq<char>>) -> bool {
    forall|i: int, j: int| 0 <= i < j < names.len() ==> names[i] != names[j]
}

/// A route and a command route that may stand together: the route is a well-formed
/// template, the command route names each variable once, and the route's placeholders
/// are exactly the command's variables.
pub open spec fn declaration_ok(route: Seq<char>, cli_route: Seq<char>) -> bool {
    match placeholders(route) {
        Some(names) => {
            &&& distinct(cli_variables(cli_route))
            &&& forall|k: int| 0 <= k < names.len() ==> cli_variables(cli_route).contains(#[trigger] names[k])
            &&& forall|k: int|
                0 <= k < cli_variables(cli_route).len() ==> names.contains(
                    #[trigger] cli_variables(cli_route)[k],
                )
        },
        None => false,
    }
}

/// One declared endpoint: where a command sends its request, and how.
#[derive(Debug)]
pub struct Endpoint {
    /// The route template, as `/projects/{id}/issues/{iid}`.
    pub route: String,
    /// The command path, slash separated, whose `{name}` segments take the values
    /// that fill the route's placeholders.
    pub cli_route: String,
    pub method: Method,
    /// The status that a successful call returns.
    pub ok_status: Status,
    /// The endpoint returns a list, one page at a time.
    pub multiple_results: bool,
    /// The endpoint returns raw bytes rather than a decoded object.
    pub stream: bool,
    /// Messages that explain other statuses this endpoint may answer with, such as
    /// "Already subscribed" for a not-modified reply. A later entry for a status
    /// overrides an earlier one.
    pub status_messages: Vec<(Status, String)>,
}

/// What a response status means for the call that got it.
#[derive(Debug, PartialEq, Eq)]
pub enum Outcome {
    /// The status the endpoint answers with on success.
    Success,
    /// A status for which the endpoint declares an explanation.
    Refused(String),
    /// Any other status.
    Unexpected(u16),
}

/// The message declared for the status with this code: the last entry that names it.
pub open spec fn declared_message(msgs: Seq<(Status, String)>, code: u16) -> Option<Seq<char>>
    decreases msgs.len(),
{
    if msgs.len() == 0 {
        None
    } else if status_code(msgs.last().0) == code {
        Some(msgs.last().1@)
    } else {
        declared_message(msgs.drop_last(), code)
    }
}

pub open spec fn is_outcome(e: Endpoint, code: u16, r: Outcome) -> bool {
    if code == status_code(e.ok_status) {
        r is Success
    } else {
        match declared_message(e.status_messages@, code) {
            Some(m) => r matches Outcome::Refused(s) && s@ == m,
            None => r == Outcome::Unexpected(code),
        }
    }
}

/// The page and page size that a listing command was given.
#[derive(Clone, Copy, Debug, Default, PartialEq, Eq, Structural)]
pub struct Pagination {
    pub page: Option<u32>,
    pub per_page: Option<u32>,
}

pub const DEFAULT_PAGE: u32 = 1;

pub const DEFAULT_PER_PAGE: u32 = 20;

pub open spec fn page_or_default(p: Pagination) -> u32 {
    match p.page {
        Some(n) => n,
        None => DEFAULT_PAGE,
    }
}

pub open spec fn per_page_or_default(p: Pagination) -> u32 {
    match p.per_page {
        Some(n) => n,
        None => DEFAULT_PER_PAGE,
    }
}

impl Pagination {
    /// The page asked for; the first page when none was given.
    pub fn page_or_default(&self) -> (r: u32)
        ensures
            r == page_or_default(*self),
    {
        match self.page {
            Some(n) => n,
            None => DEFAULT_PAGE,
        }
    }

    /// The page size asked for; twenty items when none was given.
    pub fn per_page_or_default(&self) -> (r: u32)
        ensures
            r == per_page_or_default(*self),
    {
        match self.per_page {
            Some(n) => n,
            None => DEFAULT_PER_PAGE,
        }
    }
}

fn position_of(v: &Vec<String>, x: &String) -> (r: Option<usize>)
    ensures
        match r {
            Some(k) => k < v@.len() && v@[k as int]@ == x@,
            None => !strings(v@).contains(x@),
        },
{
    let mut k: usize = 0;
    while k < v.len()
        invariant
            k <= v@.len(),
            forall|j: int| 0 <= j < k ==> v@[j]@ != x@,
        decreases v@.len() - k,
    {
        if v[k] == *x {
            return Some(k);
        }
        k = k + 1;
    }
    proof {
        if strings(v@).contains(x@) {
            let j = choose|j: int| 0 <= j < strings(v@).len() && strings(v@)[j] == x@;
            assert(v@[j]@ == x@);
        }
    }
    None
}

fn first_repeated(v: &Vec<String>) -> (r: Option<usize>)
    ensures
        match r {
            Some(k) => k < v@.len() && exists|j: int|
                0 <= j < v@.len() && j != k && #[trigger] v@[j]@ == v@[k as int]@,
            None => distinct(strings(v@)),
        },
{
    let mut i: usize = 0;
    while i < v.len()
        invariant
            i <= v@.len(),
            forall|a: int, b: int| 0 <= a < i && a < b < v@.len() ==> v@[a]@ != v@[b]@,
        decreases v@.len() - i,
    {
        let mut j: usize = i + 1;
        while j < v.len()
            invariant
                i < v@.len(),
                i + 1 <= j <= v@.len(),
                forall|a: int, b: int| 0 <= a < i && a < b < v@.len() ==> v@[a]@ != v@[b]@,
                forall|b: int| i < b < j ==> v@[i as int]@ != v@[b]@,
            decreases v@.len() - j,
        {
            if v[i] == v[j] {
                assert(v@[j as int]@ == v@[i as int]@);
                return Some(i);
            }
            j = j + 1;
        }
        i = i + 1;
    }
    None
}

impl Endpoint {
    pub open spec fn wf(&self) -> bool {
        declaration_ok(self.route@, self.cli_route@)
    }

    /// Checks a declaration: the route must be a well-formed template whose
    /// placeholders are exactly the variables of the command route, each named once.
    pub fn new(
        route: &str,
        cli_route: &str,
        method: Method,
        ok_status: Status,
        multiple_results: bool,
        stream: bool,
    ) -> (r: Result<Endpoint, RouteError>)
        ensures
            match r {
                Ok(e) => {
                    &&& declaration_ok(route@, cli_route@)
                    &&& e.route@ == route@
                    &&& e.cli_route@ == cli_route@
                    &&& e.method == method
                    &&& e.ok_status == ok_status
                    &&& e.multiple_results == multiple_results
                    &&& e.stream == stream
                    &&& e.status_messages@.len() == 0
                },
                Err(RouteError::MalformedRoute) => placeholders(route@) is None,
                Err(RouteError::DuplicateVariable(n)) => {
                    &&& placeholders(route@) is Some
                    &&& exists|i: int, j: int|
                        0 <= i < j < cli_variables(cli_route@).len() && #[trigger] cli_variables(
                            cli_route@,
                        )[i] == n@ && #[trigger] cli_variables(cli_route@)[j] == n@
                },
                Err(RouteError::UnknownPlaceholder(n)) => {
                    &&& distinct(cli_variables(cli_route@))
                    &&& placeholders(route@) is Some
                    &&& placeholders(route@).unwrap().contains(n@)
                    &&& !cli_variables(cli_route@).contains(n@)
                },
                Err(RouteError::UnusedVariable(n)) => {
                    &&& distinct(cli_variables(cli_route@))
                    &&& placeholders(route@) is Some
                    &&& forall|k: int|
                        0 <= k < placeholders(route@).unwrap().len() ==> cli_variables(
                            cli_route@,
                        ).contains(#[trigger] placeholders(route@).unwrap()[k])
                    &&& cli_variables(cli_route@).contains(n@)
                    &&& !placeholders(route@).unwrap().contains(n@)
                },
                Err(RouteError::MissingValue(_)) => false,
            },
    {
        let names = match placeholders_of(route) {
            Ok(v) => v,
            Err(e) => {
                return Err(e);
            },
        };
        let vars = cli_variables_of(cli_route);
        match first_repeated(&vars) {
            Some(i) => {
                let ghost cv = cli_variables(cli_route@);
                let ghost j = choose|j: int|
                    0 <= j < vars@.len() && j != i && #[trigger] vars@[j]@ == vars@[i as int]@;
                assert(cv[i as int] == vars@[i as int]@);
                assert(cv[j] == vars@[j]@);
                return Err(RouteError::DuplicateVariable(vars[i].clone()));
            },
            None => {},
        }
        let mut k: usize = 0;
        while k < names.len()
            invariant
                k <= names@.len(),
                placeholders(route@) == Some(strings(names@)),
                strings(vars@) == cli_variables(cli_route@),
                distinct(cli_variables(cli_route@)),
                forall|j: int| 0 <= j < k ==> strings(vars@).contains(#[trigger] strings(names@)[j]),
            decreases names@.len() - k,
        {
            match position_of(&vars, &names[k]) {
                Some(p) => {
                    assert(strings(vars@)[p as int] == strings(names@)[k as int]);
                },
                None => {
                    assert(strings(names@)[k as int] == names@[k as int]@);
                    return Err(RouteError::UnknownPlaceholder(names[k].clone()));
                },
            }
            k = k + 1;
        }
        let mut k: usize = 0;
        while k < vars.len()
            invariant
                k <= vars@.len(),
                placeholders(route@) == Some(strings(names@)),
                strings(vars@) == cli_variables(cli_route@),
                distinct(cli_variables(cli_route@)),
                forall|j: int|
                    0 <= j < names@.len() ==> strings(vars@).contains(#[trigger] strings(names@)[j]),
                forall|j: int| 0 <= j < k ==> strings(names@).contains(#[trigger] strings(vars@)[j]),
            decreases vars@.len() - k,
        {
            match position_of(&names, &vars[k]) {
                Some(p) => {
                    assert(strings(names@)[p as int] == strings(vars@)[k as int]);
                },
                None => {
                    assert(strings(vars@)[k as int] == vars@[k as int]@);
                    return Err(RouteError::UnusedVariable(vars[k].clone()));
                },
            }
            k = k + 1;
        }
        Ok(
            Endpoint {
                route: String::from_str(route),
                cli_route: String::from_str(cli_route),
                method,
                ok_status,
                multiple_results,
                stream,
                status_messages: Vec::new(),
            },
        )
    }

    /// Declares the message that explains a reply with `status`.
    pub fn add_status_message(&mut self, status: Status, message: &str)
        ensures
            final(self).status_messages@.len() == old(self).status_messages@.len() + 1,
            final(self).status_messages@.drop_last() == old(self).status_messages@,
            final(self).status_messages@.last().0 == status,
            final(self).status_messages@.last().1@ == message@,
            final(self).route == old(self).route,
            final(self).cli_route == old(self).cli_route,
            final(self).method == old(self).method,
            final(self).ok_status == old(self).ok_status,
            final(self).multiple_results == old(self).multiple_results,
            final(self).stream == old(self).stream,
    {
        self.status_messages.push((status, String::from_str(message)));
        assert(self.status_messages@.drop_last() =~= old(self).status_messages@);
    }

    /// What a reply with this status code means: success for the declared success
    /// status, the declared explanation for a status that has one, otherwise an
    /// unexpected status.
    pub fn outcome(&self, code: u16) -> (r: Outcome)
        ensures
            is_outcome(*self, code, r),
    {
        if code == self.ok_status.code() {
            return Outcome::Success;
        }
        let mut k: usize = self.status_messages.len();
        assert(self.status_messages@.subrange(0, k as int) =~= self.status_messages@);
        while k > 0
            invariant
                k <= self.status_messages@.len(),
                code != status_code(self.ok_status),
                declared_message(self.status_messages@, code) == declared_message(
                    self.status_messages@.subrange(0, k as int),
                    code,
                ),
            decreases k,
        {
            let ghost prefix = self.status_messages@.subrange(0, k as int);
            assert(prefix.drop_last() =~= self.status_messages@.subrange(0, k - 1));
            k = k - 1;
            if self.status_messages[k].0.code() == code {
                return Outcome::Refused(self.status_messages[k].1.clone());
            }
        }
        Outcome::Unexpected(code)
    }

    /// The variables that the endpoint's command takes, in order.
    pub fn command_variables(&self) -> (r: Vec<String>)
        ensures
            strings(r@) == cli_variables(self.cli_route@),
    {
        cli_variables_of(self.cli_route.as_str())
    }

    /// The request address: `base` followed by the route with each placeholder
    /// replaced by the value given for it.
    pub fn uri(&self, base: &str, values: &Vec<(String, String)>) -> (r: Result<String, RouteError>)
        ensures
            match r {
                Ok(u) => expand(self.route@, values@) is Some && u@ == base@ + expand(
                    self.route@,
                    values@,
                ).unwrap(),
                Err(RouteError::MissingValue(name)) => expand(self.route@, values@) is None
                    && value_for(values@, name@) is None,
                Err(RouteError::MalformedRoute) => expand(self.route@, values@) is None
                    && placeholders(self.route@) is None,
                Err(_) => false,
            },
            self.wf() && all_valued(cli_variables(self.cli_route@), values@) ==> r is Ok,
    {
        proof {
            if self.wf() && all_valued(cli_variables(self.cli_route@), values@) {
                lemma_command_values_suffice(self.route@, self.cli_route@, values@);
            }
        }
        expand_route(self.route.as_str(), base, values)
    }

    /// The page and page size that a listing endpoint requests; `None` for an
    /// endpoint that returns a single result.
    pub fn paging(&self, p: &Pagination) -> (r: Option<(u32, u32)>)
        ensures
            r == paging_of(*self, *p),
    {
        if self.multiple_results {
            Some((p.page_or_default(), p.per_page_or_default()))
        } else {
            None
        }
    }
}

pub open spec fn paging_of(e: Endpoint, p: Pagination) -> Option<(u32, u32)> {
    if e.multiple_results {
        Some((page_or_default(p), per_page_or_default(p)))
    } else {
        None
    }
}

/// For an accepted declaration, the values that the command takes for its variables
/// are enough to build the route: no placeholder is left without a value.
pub proof fn lemma_command_values_suffice(
    route: Seq<char>,
    cli_route: Seq<char>,
    values: Seq<(String, String)>,
)
    requires
        declaration_ok(route, cli_route),
        all_valued(cli_variables(cli_route), values),
    ensures
        expand(route, values) is Some,
{
    lemma_expand_defined(route, values);
    let names = placeholders(route).unwrap();
    let vars = cli_variables(cli_route);
    assert forall|k: int| 0 <= k < names.len() implies (#[trigger] value_for(
        values,
        names[k],
    )) is Some by {
        assert(vars.contains(names[k]));
        let j = choose|j: int| 0 <= j < vars.len() && vars[j] == names[k];
        assert(value_for(values, vars[j]) is Some);
    }
}

/// Every declared route uses each of its command's variables and nothing else.
pub proof fn lemma_route_matches_command(e: Endpoint)
    requires
        e.wf(),
    ensures
        placeholders(e.route@) is Some,
        placeholders(e.route@).unwrap().to_set() == cli_variables(e.cli_route@).to_set(),
{
    let names = placeholders(e.route@).unwrap();
    let vars = cli_variables(e.cli_route@);
    assert forall|x: Seq<char>| names.to_set().contains(x) <==> vars.to_set().contains(x) by {
        if names.contains(x) {
            let k = choose|k: int| 0 <= k < names.len() && names[k] == x;
            assert(vars.contains(names[k]));
        }
        if vars.contains(x) {
            let k = choose|k: int| 0 <= k < vars.len() && vars[k] == x;
            assert(names.contains(vars[k]));
        }
    }
    assert(names.to_set() =~= vars.to_set());
}

/// Every listing endpoint takes a page and a page size, uses those it was given, and
/// asks for the first page of twenty items when it was given neither.
pub proof fn lemma_listing_defaults(e: Endpoint, p: Pagination)
    requires
        e.multiple_results,
    ensures
        paging_of(e, p) is Some,
        p.page matches Some(n) ==> paging_of(e, p).unwrap().0 == n,
        p.per_page matches Some(n) ==> paging_of(e, p).unwrap().1 == n,
        p.page is None ==> paging_of(e, p).unwrap().0 == 1,
        p.per_page is None ==> paging_of(e, p).unwrap().1 == 20,
{
}

} // verus!
