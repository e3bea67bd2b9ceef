//! What a login leaves behind: the model of a session, what a login makes
//! of the `set-cookie` values of its response, and what holds of that.

use crate::cookie::{
    captured_session_id, is_header_text, lemma_captured_session_id, mentions_server_id,
};
use crate::envelope::is_success;
use crate::error::GrowattError;
use vstd::prelude::*;

verus! {

/// The address that the referer is made of; the session identifier follows.
pub const REFERER_PREFIX: &'static str = "https://server.growatt.com/index;jsessionid=";

/// What a `GrowattServer` holds, as mathematical values.
#[verifier::ext_equal]
pub struct ServerView {
    /// The address that every page is appended to.
    pub server_url: Seq<char>,
    /// The `set-cookie` values kept from the last login, as they came.
    pub cookie: Seq<Seq<char>>,
    /// The referer derived from the last login, empty when there is none.
    pub referer: Seq<char>,
}

/// True when every value of `values` may stand as a header value.
pub open spec fn all_header_text(values: Seq<Seq<char>>) -> bool {
    forall|i: int| 0 <= i < values.len() ==> is_header_text(#[trigger] values[i])
}

/// The referer that a `set-cookie` value gives rise to: the prefix followed
/// by the session identifier that the value carries, if it carries one.
pub open spec fn referer_of(value: Seq<char>) -> Option<Seq<char>> {
    match captured_session_id(value) {
        Some(id) => Some(REFERER_PREFIX@ + id),
        None => None,
    }
}

/// True when a login keeps `value`: it carries a session identifier or names
/// a server identifier.
pub open spec fn is_kept(value: Seq<char>) -> bool {
    captured_session_id(value) is Some || mentions_server_id(value)
}

/// What holds of every session: each kept cookie and the referer can be sent
/// as a header value, each kept cookie matched one of the two patterns, and
/// a referer is only kept together with the cookie it was derived from.
pub open spec fn session_is_sound(cookie: Seq<Seq<char>>, referer: Seq<char>) -> bool {
    &&& all_header_text(cookie)
    &&& is_header_text(referer)
    &&& forall|i: int| 0 <= i < cookie.len() ==> is_kept(#[trigger] cookie[i])
    &&& referer.len() > 0 ==> exists|i: int|
        0 <= i < cookie.len() && referer_of(#[trigger] cookie[i]) == Some(referer)
}

/// The cookies that a login keeps from the `set-cookie` values of its
/// response, in order: a value once if it carries a session identifier, and
/// once more if it names a server identifier.
pub open spec fn stored_cookies(values: Seq<Seq<char>>) -> Seq<Seq<char>>
    decreases values.len(),
{
    if values.len() == 0 {
        Seq::empty()
    } else {
        let earlier = stored_cookies(values.drop_last());
        let value = values.last();
        let with_session = if captured_session_id(value) is Some {
            earlier.push(value)
        } else {
            earlier
        };
        if mentions_server_id(value) {
            with_session.push(value)
        } else {
            with_session
        }
    }
}

/// The referer that a login derives from the `set-cookie` values of its
/// response: the prefix and the session identifier of the last value that
/// carries one, or nothing where none does.
pub open spec fn derived_referer(values: Seq<Seq<char>>) -> Seq<char>
    decreases values.len(),
{
    if values.len() == 0 {
        Seq::empty()
    } else {
        match referer_of(values.last()) {
            Some(referer) => referer,
            None => derived_referer(values.drop_last()),
        }
    }
}

/// How a login ends, given the `set-cookie` values and the body of its
/// response.
pub open spec fn login_outcome(values: Seq<Seq<char>>, body: Seq<char>) -> Result<
    Seq<char>,
    GrowattError,
> {
    if !all_header_text(values) {
        Err(GrowattError::MalformedResponse)
    } else if !is_success(body) {
        Err(GrowattError::AuthenticationFailure)
    } else {
        Ok(body)
    }
}

/// A client of the service at `server_url` with no session: no cookie and
/// an empty referer.
pub open spec fn fresh_client(server_url: Seq<char>) -> ServerView {
    ServerView { server_url, cookie: Seq::empty(), referer: Seq::empty() }
}

/// The client of the same service with no session.
pub open spec fn without_session(server: ServerView) -> ServerView {
    fresh_client(server.server_url)
}

/// The session that a login leaves behind. Nothing of the session before it
/// is kept but the address of the service.
pub open spec fn session_after_login(
    before: ServerView,
    values: Seq<Seq<char>>,
    body: Seq<char>,
) -> ServerView {
    if login_outcome(values, body) is Ok {
        ServerView {
            server_url: before.server_url,
            cookie: stored_cookies(values),
            referer: derived_referer(values),
        }
    } else {
        without_session(before)
    }
}

/// The referer prefix can be sent as a header value.
pub proof fn lemma_referer_prefix_is_header_text()
    ensures
        is_header_text(REFERER_PREFIX@),
        REFERER_PREFIX@.len() > 0,
{
    reveal_strlit("https://server.growatt.com/index;jsessionid=");
}

/// The session that a login derives from header text is sound.
pub proof fn lemma_derived_session_is_sound(values: Seq<Seq<char>>)
    requires
        all_header_text(values),
    ensures
        session_is_sound(stored_cookies(values), derived_referer(values)),
    decreases values.len(),
{
    if values.len() > 0 {
        let earlier = values.drop_last();
        let value = values.last();
        assert forall|i: int| 0 <= i < earlier.len() implies is_header_text(
            #[trigger] earlier[i],
        ) by {
            assert(earlier[i] == values[i]);
        }
        lemma_derived_session_is_sound(earlier);
        assert(is_header_text(value));
        let kept_earlier = stored_cookies(earlier);
        let kept = stored_cookies(values);
        let referer = derived_referer(values);
        if captured_session_id(value) is Some {
            lemma_captured_session_id(value);
            lemma_referer_prefix_is_header_text();
            assert(kept[kept_earlier.len() as int] == value);
            assert(referer_of(kept[kept_earlier.len() as int]) == Some(referer));
        } else if referer.len() > 0 {
            let i = choose|i: int|
                0 <= i < kept_earlier.len() && referer_of(#[trigger] kept_earlier[i]) == Some(
                    referer,
                );
            assert(referer_of(kept[i]) == Some(referer));
        }
    }
}

/// The cookies that a login keeps are values of its response that matched
/// one of the two patterns, and every such value is kept. Values that match
/// neither pattern are ignored.
pub proof fn lemma_stored_cookies_are_the_matching_values(values: Seq<Seq<char>>)
    ensures
        forall|i: int|
            0 <= i < stored_cookies(values).len() ==> values.contains(
                #[trigger] stored_cookies(values)[i],
            ) && is_kept(stored_cookies(values)[i]),
        forall|k: int|
            0 <= k < values.len() && is_kept(#[trigger] values[k]) ==> stored_cookies(
                values,
            ).contains(values[k]),
    decreases values.len(),
{
    if values.len() > 0 {
        let earlier = values.drop_last();
        let value = values.last();
        let kept_earlier = stored_cookies(earlier);
        let kept = stored_cookies(values);
        lemma_stored_cookies_are_the_matching_values(earlier);
        assert forall|i: int| 0 <= i < kept.len() implies values.contains(#[trigger] kept[i])
            && is_kept(kept[i]) by {
            if i < kept_earlier.len() {
                let k = choose|k: int| 0 <= k < earlier.len() && earlier[k] == kept_earlier[i];
                assert(values[k] == kept[i]);
            } else {
                assert(values[values.len() - 1] == kept[i]);
            }
        }
        assert forall|k: int| 0 <= k < values.len() && is_kept(#[trigger] values[k]) implies kept
            .contains(values[k]) by {
            if k < earlier.len() {
                let i = choose|i: int| 0 <= i < kept_earlier.len() && kept_earlier[i] == earlier[k];
                assert(kept[i] == values[k]);
            } else {
                assert(kept[kept_earlier.len() as int] == values[k]);
            }
        }
    }
}

/// The referer that a login derives comes from the last value of its
/// response that carries a session identifier, and is empty where none does.
pub proof fn lemma_derived_referer_comes_from_last_session(values: Seq<Seq<char>>)
    ensures
        (forall|k: int| 0 <= k < values.len() ==> referer_of(#[trigger] values[k]) is None)
            ==> derived_referer(values).len() == 0,
        forall|k: int|
            0 <= k < values.len() && referer_of(#[trigger] values[k]) is Some && (forall|j: int|
                k < j < values.len() ==> referer_of(#[trigger] values[j]) is None)
                ==> derived_referer(values) == referer_of(values[k])->0,
    decreases values.len(),
{
    if values.len() > 0 {
        let earlier = values.drop_last();
        lemma_derived_referer_comes_from_last_session(earlier);
        assert forall|k: int| 0 <= k < earlier.len() implies earlier[k] == values[k] by {}
        assert(values[values.len() - 1] == values.last());
    }
}

/// Whatever the response, a login leaves a sound session, and a login that
/// failed leaves none.
pub proof fn lemma_login_leaves_sound_session(
    before: ServerView,
    values: Seq<Seq<char>>,
    body: Seq<char>,
)
    ensures
        session_is_sound(
            session_after_login(before, values, body).cookie,
            session_after_login(before, values, body).referer,
        ),
        login_outcome(values, body) is Err ==> session_after_login(before, values, body)
            == without_session(before),
{
    if login_outcome(values, body) is Ok {
        lemma_derived_session_is_sound(values);
    }
}

/// A login does not look at the session before it: two clients of the same
/// service are left with the same session by the same response.
pub proof fn lemma_login_forgets_earlier_session(
    first: ServerView,
    second: ServerView,
    values: Seq<Seq<char>>,
    body: Seq<char>,
)
    requires
        first.server_url == second.server_url,
    ensures
        session_after_login(first, values, body) == session_after_login(second, values, body),
{
}

/// A login that is accepted with one `set-cookie` value that carries a
/// session identifier keeps that value as it came, and its referer is the
/// prefix followed by the identifier.
pub proof fn lemma_login_keeps_session_cookie(
    before: ServerView,
    value: Seq<char>,
    body: Seq<char>,
)
    requires
        is_header_text(value),
        captured_session_id(value) is Some,
        is_success(body),
    ensures
        ({
            let after = session_after_login(before, seq![value], body);
            &&& after.referer == REFERER_PREFIX@ + captured_session_id(value)->0
            &&& after.cookie.len() > 0
            &&& after.cookie[0] == value
        }),
{
    let values = seq![value];
    assert(values.drop_last() =~= Seq::<Seq<char>>::empty());
    assert(values.last() == value);
    assert(stored_cookies(values.drop_last()) =~= Seq::<Seq<char>>::empty());
}

} // verus!
