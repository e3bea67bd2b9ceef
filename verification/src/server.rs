//! The client of the service: the session it keeps, the requests it builds
//! and the responses it digests.

use crate::cookie::{has_server_id, header_text, is_header_text, session_id};
use crate::envelope::{
    code_is_success, extract_status_payload, is_success, read_result_code, status_text,
};
use crate::error::GrowattError;
use crate::request::{pair_texts, texts, Request, RequestView};
use crate::session::{
    all_header_text, derived_referer, fresh_client, lemma_derived_session_is_sound, login_outcome,
    session_after_login, session_is_sound, stored_cookies, without_session, ServerView,
    REFERER_PREFIX,
};
use vstd::prelude::*;
use vstd::string::StringExecFns;

verus! {

/// The address of the production service.
pub const DEFAULT_SERVER_URL: &'static str = "https://server.growatt.com/";

/// The page that a login is posted to.
pub const LOGIN_PAGE: &'static str = "login";

/// The page that reports the status of a hybrid inverter; the plant
/// identifier follows.
pub const MIX_STATUS_PAGE: &'static str = "panel/mix/getMIXStatusData?plantId=";

/// The page that lists the devices of a plant; the plant identifier follows.
pub const DEVICE_LIST_PAGE: &'static str = "panel/getDevicesByPlantList?plantId=";

/// What follows the plant identifier on the device list page: the first
/// page of the list.
pub const FIRST_PAGE: &'static str = "&currPage=1";

/// The browser that a login claims to come from.
pub const USER_AGENT: &'static str =
    "Mozilla/5.0 (Windows NT 10.0; Win64; x64) AppleWebKit/537.36 (KHTML, like Gecko) Chrome/104.0.0.0 Safari/537.36-11";

/// The header that names the browser.
pub const USER_AGENT_HEADER: &'static str = "User-Agent";

/// The header that asks for the connection to be kept.
pub const CONNECTION_HEADER: &'static str = "Connection";

/// The value of the connection header.
pub const KEEP_ALIVE: &'static str = "keep-alive";

/// The header that each kept cookie is sent back under.
pub const COOKIE_HEADER: &'static str = "cookie";

/// The header that the referer is sent under.
pub const REFERER_HEADER: &'static str = "Referer";

/// The form field that holds the user's name.
pub const ACCOUNT_FIELD: &'static str = "account";

/// The form field that holds the password.
pub const PASSWORD_FIELD: &'static str = "password";

/// The form field that holds the serial number of the inverter.
pub const MIX_SERIAL_FIELD: &'static str = "mixSn";

/// The state of one session with the service.
pub struct GrowattServer {
    server_url: String,
    cookie: Vec<String>,
    referer: String,
}

/// The headers that carry a session: one `cookie` line for each kept cookie,
/// then the referer, which is sent even when it is empty.
pub open spec fn session_headers_of(server: ServerView) -> Seq<(Seq<char>, Seq<char>)> {
    Seq::new(server.cookie.len(), |i: int| (COOKIE_HEADER@, server.cookie[i])).push(
        (REFERER_HEADER@, server.referer),
    )
}

/// True when the value of every header line may stand as a header value.
pub open spec fn header_values_are_text(headers: Seq<(Seq<char>, Seq<char>)>) -> bool {
    forall|i: int| 0 <= i < headers.len() ==> is_header_text(#[trigger] headers[i].1)
}

/// The request that logs `username` in. It carries nothing of the session.
pub open spec fn login_request_of(
    server: ServerView,
    username: Seq<char>,
    password: Seq<char>,
) -> RequestView {
    RequestView {
        url: server.server_url + LOGIN_PAGE@,
        headers: seq![(USER_AGENT_HEADER@, USER_AGENT@), (CONNECTION_HEADER@, KEEP_ALIVE@)],
        form: Some(seq![(ACCOUNT_FIELD@, username), (PASSWORD_FIELD@, password)]),
    }
}

/// The request for the status of the inverter `mix_id` of the plant
/// `plant_id`.
pub open spec fn mix_system_status_request_of(
    server: ServerView,
    mix_id: Seq<char>,
    plant_id: Seq<char>,
) -> RequestView {
    RequestView {
        url: server.server_url + MIX_STATUS_PAGE@ + plant_id,
        headers: session_headers_of(server),
        form: Some(seq![(MIX_SERIAL_FIELD@, mix_id)]),
    }
}

/// The request for the first page of the devices of the plant `plant_id`.
pub open spec fn device_list_by_plant_request_of(
    server: ServerView,
    plant_id: Seq<char>,
) -> RequestView {
    RequestView {
        url: server.server_url + DEVICE_LIST_PAGE@ + plant_id + FIRST_PAGE@,
        headers: session_headers_of(server),
        form: None,
    }
}

/// The values of the headers of a login request can be sent as header
/// values.
pub proof fn lemma_login_headers_are_text()
    ensures
        is_header_text(USER_AGENT@),
        is_header_text(KEEP_ALIVE@),
{
    reveal_strlit(
        "Mozilla/5.0 (Windows NT 10.0; Win64; x64) AppleWebKit/537.36 (KHTML, like Gecko) Chrome/104.0.0.0 Safari/537.36-11",
    );
    reveal_strlit("keep-alive");
}

/// A failed login leaves no session, and it does not stand in the way of the
/// next attempt: the next login request is the one a fresh client would
/// send, and a response that is accepted then leaves the session it would
/// have left on a fresh client.
pub proof fn lemma_login_recovers_after_failure(
    first: ServerView,
    failed_values: Seq<Seq<char>>,
    failed_body: Seq<char>,
    username: Seq<char>,
    password: Seq<char>,
    values: Seq<Seq<char>>,
    body: Seq<char>,
)
    requires
        login_outcome(failed_values, failed_body) is Err,
        login_outcome(values, body) is Ok,
    ensures
        ({
            let failed = session_after_login(first, failed_values, failed_body);
            let fresh = without_session(first);
            &&& failed == fresh
            &&& login_request_of(failed, username, password) == login_request_of(
                fresh,
                username,
                password,
            )
            &&& session_after_login(failed, values, body) == session_after_login(
                fresh,
                values,
                body,
            )
            &&& session_after_login(failed, values, body).cookie == stored_cookies(values)
            &&& session_after_login(failed, values, body).referer == derived_referer(values)
        }),
{
}

/// Before any login, and after a login that failed, a request still carries
/// the session headers: no cookie line, and a referer that is empty.
pub proof fn lemma_requests_without_session(
    server_url: Seq<char>,
    mix_id: Seq<char>,
    plant_id: Seq<char>,
)
    ensures
        mix_system_status_request_of(fresh_client(server_url), mix_id, plant_id).headers == seq![
            (REFERER_HEADER@, Seq::<char>::empty()),
        ],
        device_list_by_plant_request_of(fresh_client(server_url), plant_id).headers == seq![
            (REFERER_HEADER@, Seq::<char>::empty()),
        ],
{
    assert(session_headers_of(fresh_client(server_url)) =~= seq![
        (REFERER_HEADER@, Seq::<char>::empty()),
    ]);
}

impl View for GrowattServer {
    type V = ServerView;

    closed spec fn view(&self) -> ServerView {
        ServerView {
            server_url: self.server_url@,
            cookie: texts(self.cookie@),
            referer: self.referer@,
        }
    }
}

impl GrowattServer {
    #[verifier::type_invariant]
    spec fn sound(self) -> bool {
        session_is_sound(texts(self.cookie@), self.referer@)
    }

    /// A client of the production service, with no session yet.
    pub fn new() -> (server: GrowattServer)
        ensures
            server@ == fresh_client(DEFAULT_SERVER_URL@),
    {
        let server = GrowattServer {
            server_url: DEFAULT_SERVER_URL.to_owned(),
            cookie: Vec::new(),
            referer: String::new(),
        };
        proof {
            assert(texts(server.cookie@) =~= Seq::empty());
        }
        server
    }

    /// A client of the service at `server_url`, with no session yet. Pages
    /// are appended to the address as it is given.
    pub fn with_server_url(server_url: String) -> (server: GrowattServer)
        ensures
            server@ == fresh_client(server_url@),
    {
        let server = GrowattServer { server_url, cookie: Vec::new(), referer: String::new() };
        proof {
            assert(texts(server.cookie@) =~= Seq::empty());
        }
        server
    }

    /// The address that every page is appended to.
    pub fn server_url(&self) -> (server_url: &str)
        ensures
            server_url@ == self@.server_url,
    {
        self.server_url.as_str()
    }

    /// The cookies kept from the last login, as they came.
    pub fn cookie(&self) -> (cookie: &[String])
        ensures
            texts(cookie@) == self@.cookie,
            session_is_sound(self@.cookie, self@.referer),
    {
        proof {
            use_type_invariant(self);
        }
        self.cookie.as_slice()
    }

    /// The referer derived from the last login, empty when there is none.
    pub fn referer(&self) -> (referer: &str)
        ensures
            referer@ == self@.referer,
            session_is_sound(self@.cookie, self@.referer),
    {
        proof {
            use_type_invariant(self);
        }
        self.referer.as_str()
    }

    /// Drops the session: the cookies and the referer of the last login.
    pub fn clear_session(&mut self)
        ensures
            final(self)@ == without_session(old(self)@),
    {
        proof {
            use_type_invariant(&*self);
        }
        self.referer = String::new();
        self.cookie = Vec::new();
        proof {
            assert(texts(self.cookie@) =~= Seq::empty());
        }
    }

    /// The success test that every envelope but the status payload goes
    /// through: the body is JSON with an integer `result` other than zero.
    pub fn check_res(body: &str) -> (ok: bool)
        ensures
            ok == is_success(body@),
    {
        code_is_success(read_result_code(body))
    }

    /// The address of `page` on the service.
    pub fn get_url(&self, page: &str) -> (url: String)
        ensures
            url@ == self@.server_url + page@,
    {
        let mut ret = self.server_url.clone();
        ret.append(page);
        ret
    }

    /// The header lines that carry the session.
    fn session_headers(&self) -> (headers: Vec<(String, String)>)
        ensures
            pair_texts(headers@) == session_headers_of(self@),
            header_values_are_text(pair_texts(headers@)),
    {
        proof {
            use_type_invariant(self);
        }
        let mut headers: Vec<(String, String)> = Vec::new();
        let mut i: usize = 0;
        while i < self.cookie.len()
            invariant
                i <= self.cookie.len(),
                pair_texts(headers@) == Seq::new(
                    i as nat,
                    |k: int| (COOKIE_HEADER@, self@.cookie[k]),
                ),
            decreases self.cookie.len() - i,
        {
            let ghost before = headers@;
            headers.push((COOKIE_HEADER.to_owned(), self.cookie[i].clone()));
            proof {
                assert(pair_texts(headers@) =~= pair_texts(before).push(
                    (COOKIE_HEADER@, self@.cookie[i as int]),
                ));
            }
            i += 1;
        }
        let ghost before = headers@;
        headers.push((REFERER_HEADER.to_owned(), self.referer.clone()));
        proof {
            assert(pair_texts(headers@) =~= pair_texts(before).push(
                (REFERER_HEADER@, self@.referer),
            ));
            assert(pair_texts(before) =~= Seq::new(
                self@.cookie.len(),
                |k: int| (COOKIE_HEADER@, self@.cookie[k]),
            ));
        }
        headers
    }

    /// The request that logs `username` in with `password`.
    pub fn login_request(&self, username: &str, password: &str) -> (request: Request)
        ensures
            request@ == login_request_of(self@, username@, password@),
            header_values_are_text(request@.headers),
    {
        let mut headers: Vec<(String, String)> = Vec::new();
        headers.push((USER_AGENT_HEADER.to_owned(), USER_AGENT.to_owned()));
        headers.push((CONNECTION_HEADER.to_owned(), KEEP_ALIVE.to_owned()));
        let mut form: Vec<(String, String)> = Vec::new();
        form.push((ACCOUNT_FIELD.to_owned(), username.to_owned()));
        form.push((PASSWORD_FIELD.to_owned(), password.to_owned()));
        proof {
            lemma_login_headers_are_text();
            assert(pair_texts(headers@) =~= seq![
                (USER_AGENT_HEADER@, USER_AGENT@),
                (CONNECTION_HEADER@, KEEP_ALIVE@),
            ]);
            assert(pair_texts(form@) =~= seq![
                (ACCOUNT_FIELD@, username@),
                (PASSWORD_FIELD@, password@),
            ]);
        }
        Request { url: self.get_url(LOGIN_PAGE), headers, form: Some(form) }
    }

    /// Digests the response to a login request: the values of its
    /// `set-cookie` headers, in the order they came, and its body.
    ///
    /// Whatever session there was is dropped first. A value that is not
    /// plain header text makes the response malformed; a body that fails
    /// the success test is an authentication failure; either way no session
    /// is left. Otherwise the cookies and the referer are kept and the body
    /// is handed back as it came.
    pub fn login(&mut self, set_cookie: &[String], body: String) -> (outcome: Result<
        String,
        GrowattError,
    >)
        ensures
            final(self)@ == session_after_login(old(self)@, texts(set_cookie@), body@),
            match login_outcome(texts(set_cookie@), body@) {
                Ok(_) => outcome == Ok::<String, GrowattError>(body),
                Err(e) => outcome == Err::<String, GrowattError>(e),
            },
    {
        let ghost values = texts(set_cookie@);
        self.clear_session();
        let mut cookie: Vec<String> = Vec::new();
        let mut referer = String::new();
        let mut i: usize = 0;
        while i < set_cookie.len()
            invariant
                i <= set_cookie.len(),
                values == texts(set_cookie@),
                all_header_text(values.take(i as int)),
                texts(cookie@) == stored_cookies(values.take(i as int)),
                referer@ == derived_referer(values.take(i as int)),
                self@ == without_session(old(self)@),
            decreases set_cookie.len() - i,
        {
            let value = &set_cookie[i];
            proof {
                assert(values.take(i + 1).drop_last() =~= values.take(i as int));
                assert(values.take(i + 1).last() == value@);
            }
            if !header_text(value) {
                proof {
                    assert(!is_header_text(values[i as int]));
                }
                return Err(GrowattError::MalformedResponse);
            }
            match session_id(value) {
                Some(id) => {
                    referer = REFERER_PREFIX.to_owned().concat(id);
                    cookie.push(value.clone());
                },
                None => {},
            }
            if has_server_id(value) {
                cookie.push(value.clone());
            }
            i += 1;
        }
        proof {
            assert(values.take(i as int) =~= values);
            lemma_derived_session_is_sound(values);
        }
        if !code_is_success(read_result_code(body.as_str())) {
            return Err(GrowattError::AuthenticationFailure);
        }
        self.cookie = cookie;
        self.referer = referer;
        Ok(body)
    }

    /// The request for the status of the inverter `mix_id` of the plant
    /// `plant_id`, carrying the session of the last login.
    pub fn mix_system_status_request(&self, mix_id: &str, plant_id: &str) -> (request: Request)
        ensures
            request@ == mix_system_status_request_of(self@, mix_id@, plant_id@),
            header_values_are_text(request@.headers),
    {
        let mut page = MIX_STATUS_PAGE.to_owned();
        page.append(plant_id);
        let mut form: Vec<(String, String)> = Vec::new();
        form.push((MIX_SERIAL_FIELD.to_owned(), mix_id.to_owned()));
        proof {
            assert(pair_texts(form@) =~= seq![(MIX_SERIAL_FIELD@, mix_id@)]);
            assert(self@.server_url + page@ =~= self@.server_url + MIX_STATUS_PAGE@ + plant_id@);
        }
        Request {
            url: self.get_url(page.as_str()),
            headers: self.session_headers(),
            form: Some(form),
        }
    }

    /// Digests the response to a status request: narrows the body to its
    /// `obj` member, written out again as JSON. A body that is no JSON or
    /// has no `obj` member is a malformed response; every other body gives
    /// its payload. The `result` code plays no part here.
    pub fn mix_system_status(&self, content: &str) -> (outcome: Result<String, GrowattError>)
        ensures
            match status_text(content@) {
                Some(text) => outcome matches Ok(written) && written@ == text,
                None => outcome == Err::<String, GrowattError>(GrowattError::MalformedResponse),
            },
    {
        extract_status_payload(content)
    }

    /// The request for the first page of the devices of the plant `plant_id`,
    /// carrying the session of the last login.
    pub fn device_list_by_plant_request(&self, plant_id: &str) -> (request: Request)
        ensures
            request@ == device_list_by_plant_request_of(self@, plant_id@),
            header_values_are_text(request@.headers),
    {
        let mut page = DEVICE_LIST_PAGE.to_owned();
        page.append(plant_id);
        page.append(FIRST_PAGE);
        proof {
            assert(self@.server_url + page@ =~= self@.server_url + DEVICE_LIST_PAGE@ + plant_id@
                + FIRST_PAGE@);
        }
        Request { url: self.get_url(page.as_str()), headers: self.session_headers(), form: None }
    }

    /// Digests the response to a device list request: the body is handed
    /// back where it passes the success test.
    pub fn device_list_by_plant(&self, content: String) -> (outcome: Result<String, GrowattError>)
        ensures
            is_success(content@) ==> outcome == Ok::<String, GrowattError>(content),
            !is_success(content@) ==> outcome == Err::<String, GrowattError>(
                GrowattError::RequestFailure,
            ),
    {
        if GrowattServer::check_res(content.as_str()) {
            Ok(content)
        } else {
            Err(GrowattError::RequestFailure)
        }
    }
}

impl Default for GrowattServer {
    fn default() -> (server: GrowattServer)
        ensures
            server@ == fresh_client(DEFAULT_SERVER_URL@),
    {
        GrowattServer::new()
    }
}

} // verus!
