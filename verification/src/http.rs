use vstd::prelude::*;

verus! {

use crate::table::{assoc_lookup, lookup, lookup_by_pair};
use vstd::string::StringExecFns;

/// Transport-level failure of a live HTTP call.  The deterministic double
/// never produces it: a miss there is answered with a 401 response instead,
/// so tests can tell authorization failures from connectivity failures.
#[derive(Clone, Copy, PartialEq, Eq, Structural, Debug)]
pub enum Error {
    ConnectionError,
}

/// An HTTP response reduced to what the pipeline reads.
#[derive(Debug)]
pub struct Response {
    pub status: u16,
    pub body: String,
}

impl View for Response {
    type V = (u16, Seq<char>);

    open spec fn view(&self) -> (u16, Seq<char>) {
        (self.status, self.body@)
    }
}

/// The value of the `Authorization` header carrying a bearer token, built in
/// one place so every live caller gets identical authorization semantics.
pub fn bearer_header_value(token: &str) -> (r: String)
    ensures
        r@ == "Bearer "@ + token@,
{
    let s: String = "Bearer ".to_owned();
    s.concat(token)
}

pub open spec fn response_result_view(r: Result<Response, Error>) -> Result<(u16, Seq<char>), Error> {
    match r {
        Ok(resp) => Ok(resp@),
        Err(e) => Err(e),
    }
}

/// The one network capability the pipeline needs: an authenticated GET and an
/// unauthenticated form POST.  Each implementation fixes, through the two
/// spec functions, what its calls return in terms of its own state.
pub trait AuthenticatedHttpClient: Sized {
    /// What a GET of `url` with bearer `token` returns in the current state.
    /// The default leaves it unspecified; a deterministic implementation
    /// overrides it.
    open spec fn get_response(&self, url: Seq<char>, token: Seq<char>) -> Result<(u16, Seq<char>), Error> {
        vstd::pervasive::arbitrary()
    }

    /// What a form POST of `fields` to `url` returns in the current state.
    /// The default leaves it unspecified; a deterministic implementation
    /// overrides it.
    open spec fn post_form_response(&self, url: Seq<char>, fields: Seq<(Seq<char>, Seq<char>)>) -> Result<
        (u16, Seq<char>),
        Error,
    > {
        vstd::pervasive::arbitrary()
    }

    /// Issues a GET with header `Authorization: Bearer <token>`.
    fn get(&mut self, url: &str, token: &str) -> (r: Result<Response, Error>)
        ensures
            response_result_view(r) == old(self).get_response(url@, token@),
    ;

    /// Issues a URL-encoded form POST with no auth header.
    fn post_form(&mut self, url: &str, fields: &Vec<(String, String)>) -> (r: Result<Response, Error>)
        ensures
            response_result_view(r) == old(self).post_form_response(url@, fields.deep_view()),
    ;
}

/// The deterministic double: a table-backed client that never touches the
/// network.  GET answers from a table keyed by `(token, url)`, falling back
/// to a table keyed by URL alone, and answers 401 on a miss; POST answers a
/// single pre-registered canned response regardless of the submitted fields,
/// and records every call for inspection.
pub struct NullClient {
    unauthenticated: Vec<(String, String)>,
    authenticated: Vec<((String, String), String)>,
    post_response: Option<(u16, String)>,
    recorded_posts: Vec<(String, Vec<(String, String)>)>,
}

impl NullClient {
    /// The URL-keyed table serving requests regardless of their token.
    pub closed spec fn unauth_table(&self) -> Seq<(Seq<char>, Seq<char>)> {
        self.unauthenticated.deep_view()
    }

    /// The `(token, url)`-keyed table serving authenticated requests.
    pub closed spec fn auth_table(&self) -> Seq<((Seq<char>, Seq<char>), Seq<char>)> {
        self.authenticated.deep_view()
    }

    /// The canned form-POST response, if one was registered.
    pub closed spec fn post_table(&self) -> Option<(u16, Seq<char>)> {
        match self.post_response {
            Some(p) => Some((p.0, p.1@)),
            None => None,
        }
    }

    /// Every form POST made so far: URL and submitted fields, in call order.
    pub closed spec fn recorded(&self) -> Seq<(Seq<char>, Seq<(Seq<char>, Seq<char>)>)> {
        self.recorded_posts.deep_view()
    }

    pub fn create_null() -> (r: NullClient)
        ensures
            r.unauth_table().len() == 0,
            r.auth_table().len() == 0,
            r.post_table() is None,
            r.recorded().len() == 0,
    {
        NullClient {
            unauthenticated: Vec::new(),
            authenticated: Vec::new(),
            post_response: None,
            recorded_posts: Vec::new(),
        }
    }

    /// Registers a response body for `url`, served whatever token comes.
    pub fn map_url(self, url: String, response: String) -> (r: Self)
        ensures
            r.unauth_table() == self.unauth_table().push((url@, response@)),
            r.auth_table() == self.auth_table(),
            r.post_table() == self.post_table(),
            r.recorded() == self.recorded(),
    {
        let mut c = self;
        c.unauthenticated.push((url, response));
        proof {
            assert(c.unauthenticated.deep_view() =~= self.unauthenticated.deep_view().push((
                url@,
                response@,
            )));
        }
        c
    }

    /// Registers a response body for `url`, served only to `token`.
    pub fn map_authenticated_url(self, token: String, url: String, response: String) -> (r: Self)
        ensures
            r.auth_table() == self.auth_table().push(((token@, url@), response@)),
            r.unauth_table() == self.unauth_table(),
            r.post_table() == self.post_table(),
            r.recorded() == self.recorded(),
    {
        let mut c = self;
        c.authenticated.push(((token, url), response));
        proof {
            assert(c.authenticated.deep_view() =~= self.authenticated.deep_view().push((
                (token@, url@),
                response@,
            )));
        }
        c
    }

    /// Registers the canned response every form POST is answered with.
    pub fn map_post_response(self, status: u16, body: String) -> (r: Self)
        ensures
            r.post_table() == Some((status, body@)),
            r.unauth_table() == self.unauth_table(),
            r.auth_table() == self.auth_table(),
            r.recorded() == self.recorded(),
    {
        let mut c = self;
        c.post_response = Some((status, body));
        c
    }

    /// How many form POSTs this double has answered.
    pub fn post_call_count(&self) -> (n: usize)
        ensures
            n == self.recorded().len(),
    {
        self.recorded_posts.len()
    }

    /// The URL and fields of the `i`-th recorded form POST.
    pub fn recorded_post(&self, i: usize) -> (r: &(String, Vec<(String, String)>))
        requires
            i < self.recorded().len(),
        ensures
            r.deep_view() == self.recorded()[i as int],
    {
        &self.recorded_posts[i]
    }
}

fn clone_fields(fields: &Vec<(String, String)>) -> (r: Vec<(String, String)>)
    ensures
        r.deep_view() == fields.deep_view(),
{
    let mut out: Vec<(String, String)> = Vec::new();
    let mut i: usize = 0;
    while i < fields.len()
        invariant
            i <= fields@.len(),
            out@.len() == i as int,
            forall|j: int| 0 <= j < i as int ==> out.deep_view()[j] == fields.deep_view()[j],
        decreases fields@.len() - i,
    {
        let e = &fields[i];
        out.push((e.0.clone(), e.1.clone()));
        i = i + 1;
    }
    proof {
        assert(out.deep_view() =~= fields.deep_view());
    }
    out
}

impl AuthenticatedHttpClient for NullClient {
    open spec fn get_response(&self, url: Seq<char>, token: Seq<char>) -> Result<(u16, Seq<char>), Error> {
        match assoc_lookup(self.auth_table(), (token, url)) {
            Some(body) => Ok((200u16, body)),
            None => match assoc_lookup(self.unauth_table(), url) {
                Some(body) => Ok((200u16, body)),
                None => Ok((401u16, Seq::empty())),
            },
        }
    }

    open spec fn post_form_response(&self, url: Seq<char>, fields: Seq<(Seq<char>, Seq<char>)>) -> Result<
        (u16, Seq<char>),
        Error,
    > {
        match self.post_table() {
            Some(resp) => Ok(resp),
            None => Ok((401u16, Seq::empty())),
        }
    }

    fn get(&mut self, url: &str, token: &str) -> (r: Result<Response, Error>)
        ensures
            *final(self) == *old(self),
    {
        match lookup_by_pair(&self.authenticated, token, url) {
            Some(body) => Ok(Response { status: 200, body }),
            None => match lookup(&self.unauthenticated, url) {
                Some(body) => Ok(Response { status: 200, body }),
                None => Ok(Response { status: 401, body: String::new() }),
            },
        }
    }

    fn post_form(&mut self, url: &str, fields: &Vec<(String, String)>) -> (r: Result<Response, Error>)
        ensures
            final(self).recorded() == old(self).recorded().push((url@, fields.deep_view())),
            final(self).unauth_table() == old(self).unauth_table(),
            final(self).auth_table() == old(self).auth_table(),
            final(self).post_table() == old(self).post_table(),
    {
        let recorded_fields = clone_fields(fields);
        self.recorded_posts.push((url.to_owned(), recorded_fields));
        proof {
            assert(self.recorded_posts.deep_view() =~= old(self).recorded_posts.deep_view().push((
                url@,
                fields.deep_view(),
            )));
        }
        match &self.post_response {
            Some(p) => Ok(Response { status: p.0, body: p.1.clone() }),
            None => Ok(Response { status: 401, body: String::new() }),
        }
    }
}

} // verus!
