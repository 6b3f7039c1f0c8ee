//! What each step of a call does, stated outcome by outcome over every
//! exchange, and what the plan of each method is.

use vstd::prelude::*;
use crate::api::call::{get_plan, update_plan, GetCallView, UpdateCallView};
use crate::api::exchange::{
    first_clash, query_params, request_url, step_spec, substituted_url, ActionView, Advice, EventView,
    ExchangeView, HttpMethod, PhaseView,
};
use crate::api::params::{has_name, json_value_parse_ok, lossy_utf8_text, query_len, url_parse_ok, ParamSeq};
use crate::error::ErrorView;

verus! {

/// A reply with a success status whose body decoded ends the call successfully,
/// and the delegate is told so, whatever the method of the call.
pub proof fn law_decoded_reply_succeeds(x: ExchangeView, text: Seq<char>)
    requires
        x.phase == PhaseView::AwaitingDecode(text),
    ensures
        step_spec(x, EventView::Decoded(true)).1 == (ActionView::Finish { notify: true, result: Ok(()) }),
        step_spec(x, EventView::Decoded(true)).0.phase == PhaseView::Done,
        step_spec(x, EventView::Decoded(true)).0.plan == x.plan,
{
}

/// A successful reply whose body does not decode fails with that body text.
pub proof fn law_undecodable_reply_fails(x: ExchangeView, text: Seq<char>)
    requires
        x.phase == PhaseView::AwaitingDecode(text),
    ensures
        step_spec(x, EventView::Decoded(false)).1 == (ActionView::Finish {
            notify: false,
            result: Err(ErrorView::JsonDecodeError(text)),
        }),
        step_spec(x, EventView::Decoded(false)).0.phase == PhaseView::Done,
{
}

/// Once the API key is known, the request goes out to the request URL wherever
/// that URL parses and it and its query take at most 300,000,000 characters,
/// which is all the URL operations need not to fail.
pub proof fn law_usable_url_is_sent(x: ExchangeView, key: Seq<char>)
    requires
        x.phase == PhaseView::AwaitingApiKey,
        url_parse_ok(substituted_url(x.plan, key)),
        substituted_url(x.plan, key).len() + query_len(query_params(x.plan, key)) <= 300_000_000,
    ensures
        step_spec(x, EventView::ApiKey(Some(key))).1 == ActionView::PreRequest,
        step_spec(x, EventView::ApiKey(Some(key))).0 == (ExchangeView {
            plan: x.plan,
            phase: PhaseView::Prepared,
            url: request_url(x.plan, key),
        }),
{
}

/// The call stops at the API key only where the URL does not parse or is too long,
/// and then reports the URL before its query.
pub proof fn law_unusable_url_stops(x: ExchangeView, key: Seq<char>)
    requires
        x.phase == PhaseView::AwaitingApiKey,
        !url_parse_ok(substituted_url(x.plan, key)) || substituted_url(x.plan, key).len() + query_len(
            query_params(x.plan, key),
        ) > 300_000_000,
    ensures
        step_spec(x, EventView::ApiKey(Some(key))).1 == ActionView::UnusableUrl(substituted_url(x.plan, key)),
        step_spec(x, EventView::ApiKey(Some(key))).0.phase == PhaseView::Done,
{
}

/// Without an API key the call fails, and the delegate is told so.
pub proof fn law_missing_key_fails(x: ExchangeView)
    requires
        x.phase == PhaseView::AwaitingApiKey,
    ensures
        step_spec(x, EventView::ApiKey(None)).1 == (ActionView::Finish {
            notify: true,
            result: Err(ErrorView::MissingAPIKey),
        }),
        step_spec(x, EventView::ApiKey(None)).0.phase == PhaseView::Done,
{
}

/// After a non-success reply, advice to retry is followed, whatever the status
/// and the body: the call waits as advised and then sends the same request.
pub proof fn law_failure_retry_is_followed(x: ExchangeView, status: u16, error_is_json: bool, secs: u64, nanos: u32)
    requires
        x.phase == (PhaseView::AwaitingFailureAdvice { status, error_is_json }),
    ensures
        step_spec(x, EventView::HttpFailureAdvice(Advice::RetryAfter { secs, nanos })).1 == (ActionView::Retry {
            secs,
            nanos,
        }),
        step_spec(x, EventView::HttpFailureAdvice(Advice::RetryAfter { secs, nanos })).0 == x.in_phase(
            PhaseView::Waiting,
        ),
{
}

/// After a non-success reply, advice to give up fails the call: as a bad request
/// where the body was JSON, and as a failure with the status otherwise.
pub proof fn law_failure_abort_fails(x: ExchangeView, status: u16, error_is_json: bool)
    requires
        x.phase == (PhaseView::AwaitingFailureAdvice { status, error_is_json }),
    ensures
        step_spec(x, EventView::HttpFailureAdvice(Advice::Abort)).1 == (ActionView::Finish {
            notify: true,
            result: Err(if error_is_json { ErrorView::BadRequest } else { ErrorView::Failure(status) }),
        }),
        step_spec(x, EventView::HttpFailureAdvice(Advice::Abort)).0.phase == PhaseView::Done,
{
}

/// After a failed connection, advice to retry is followed, and advice to give
/// up fails the call with an http error.
pub proof fn law_transport_error_advice(x: ExchangeView, secs: u64, nanos: u32)
    requires
        x.phase == PhaseView::AwaitingErrorAdvice,
    ensures
        step_spec(x, EventView::HttpErrorAdvice(Advice::RetryAfter { secs, nanos })).1 == (ActionView::Retry {
            secs,
            nanos,
        }),
        step_spec(x, EventView::HttpErrorAdvice(Advice::RetryAfter { secs, nanos })).0 == x.in_phase(
            PhaseView::Waiting,
        ),
        step_spec(x, EventView::HttpErrorAdvice(Advice::Abort)).1 == (ActionView::Finish {
            notify: true,
            result: Err(ErrorView::HttpError),
        }),
        step_spec(x, EventView::HttpErrorAdvice(Advice::Abort)).0.phase == PhaseView::Done,
{
}

/// A sent request whose connection fails goes to the delegate for advice.
pub proof fn law_transport_error_asks_advice(x: ExchangeView)
    requires
        x.phase == PhaseView::Sending,
    ensures
        step_spec(x, EventView::TransportError) == (
            x.in_phase(PhaseView::AwaitingErrorAdvice),
            ActionView::AskHttpErrorAdvice,
        ),
{
}

/// The request is sent right after the delegate is told, to the same URL, and
/// after a wait the delegate is told again before the same request goes out.
pub proof fn law_send_and_resend(x: ExchangeView)
    ensures
        x.phase == PhaseView::Prepared ==> step_spec(x, EventView::Proceed) == (
            x.in_phase(PhaseView::Sending),
            ActionView::Send,
        ),
        x.phase == PhaseView::Waiting ==> step_spec(x, EventView::Proceed) == (
            x.in_phase(PhaseView::Prepared),
            ActionView::PreRequest,
        ),
        x.phase == PhaseView::Created ==> step_spec(x, EventView::Proceed) == (
            x.in_phase(PhaseView::Begun),
            ActionView::Begin,
        ),
{
}

/// A call whose free form parameters set a reserved name fails with the first
/// such name, whatever its method; one that sets none asks for the API key.
pub proof fn law_clash_fails(x: ExchangeView)
    requires
        x.phase == PhaseView::Begun,
    ensures
        first_clash(x.plan.reserved, x.plan.additional) matches Some(f) ==> step_spec(x, EventView::Proceed) == (
            x.in_phase(PhaseView::Done),
            ActionView::Finish { notify: true, result: Err(ErrorView::FieldClash(f)) },
        ),
        (forall|i: int| 0 <= i < x.plan.reserved.len() ==> !has_name(x.plan.additional, #[trigger] x.plan.reserved[i]))
            ==> step_spec(x, EventView::Proceed) == (x.in_phase(PhaseView::AwaitingApiKey), ActionView::AskApiKey),
{
    crate::api::exchange::lemma_first_clash(x.plan.reserved, x.plan.additional);
}

/// A get-remote-config call is a GET without body that reserves `alt` and
/// `project`; an update-remote-config call is a PUT with a JSON body, whether
/// or not `validateOnly` was set, that also reserves `validateOnly`.
pub proof fn law_method_plans(g: GetCallView, u: UpdateCallView)
    ensures
        get_plan(g).method == HttpMethod::Get,
        get_plan(g).content_type == None::<Seq<char>>,
        get_plan(g).reserved == seq!["alt"@, "project"@],
        get_plan(g).id == "firebaseremoteconfig.projects.getRemoteConfig"@,
        get_plan(g).user_agent == g.hub.user_agent,
        get_plan(g).url_template == g.hub.base_url + "v1/{+project}/remoteConfig"@,
        update_plan(u).method == HttpMethod::Put,
        update_plan(u).content_type == Some("application/json"@),
        update_plan(u).reserved == seq!["alt"@, "project"@, "validateOnly"@],
        update_plan(u).id == "firebaseremoteconfig.projects.updateRemoteConfig"@,
        update_plan(u).user_agent == u.hub.user_agent,
        update_plan(u).url_template == u.hub.base_url + "v1/{+project}/remoteConfig"@,
        update_plan(u).leading[0] == ("project"@, u.project),
        get_plan(g).leading == seq![("project"@, g.project)],
        u.validate_only matches Some(b) ==> update_plan(u).leading == seq![
            ("project"@, u.project),
            ("validateOnly"@, if b { "true"@ } else { "false"@ }),
        ],
        u.validate_only is None ==> update_plan(u).leading == seq![("project"@, u.project)],
{
}

} // verus!

verus! {

/// A reply with a status from 200 to 299 goes on to decoding its body text;
/// any other status goes to the delegate for advice, remembering whether the
/// body text is a JSON value.
pub proof fn law_reply_routing(x: ExchangeView, status: u16, body: Seq<u8>)
    requires
        x.phase == PhaseView::Sending,
    ensures
        200 <= status <= 299 ==> step_spec(x, EventView::Replied { status, body }) == (
            x.in_phase(PhaseView::AwaitingDecode(lossy_utf8_text(body))),
            ActionView::Decode(lossy_utf8_text(body)),
        ),
        !(200 <= status <= 299) ==> step_spec(x, EventView::Replied { status, body }) == (
            x.in_phase(
                PhaseView::AwaitingFailureAdvice { status, error_is_json: json_value_parse_ok(lossy_utf8_text(body)) },
            ),
            ActionView::AskHttpFailureAdvice(lossy_utf8_text(body)),
        ),
{
}

/// The events that each phase waits for.
pub open spec fn awaited(phase: PhaseView, e: EventView) -> bool {
    match phase {
        PhaseView::Created | PhaseView::Begun | PhaseView::Prepared | PhaseView::Waiting => e == EventView::Proceed,
        PhaseView::AwaitingApiKey => e is ApiKey,
        PhaseView::Sending => e is TransportError || e is Replied,
        PhaseView::AwaitingErrorAdvice => e is HttpErrorAdvice,
        PhaseView::AwaitingFailureAdvice { .. } => e is HttpFailureAdvice,
        PhaseView::AwaitingDecode(_) => e is Decoded,
        PhaseView::Done => false,
    }
}

/// An event that its phase waits for always leads to an action; any other
/// changes nothing. The plan never changes, and the URL only when the API key
/// arrives.
pub proof fn law_events_in_phase(x: ExchangeView, e: EventView)
    ensures
        awaited(x.phase, e) ==> step_spec(x, e).1 != ActionView::Ignored,
        !awaited(x.phase, e) ==> step_spec(x, e) == (x, ActionView::Ignored),
        step_spec(x, e).0.plan == x.plan,
        !(x.phase == PhaseView::AwaitingApiKey && e is ApiKey) ==> step_spec(x, e).0.url == x.url,
{
}

/// The length of a query adds up over its parts; a single parameter takes its
/// name, its value, an `=` and a separator.
pub proof fn law_query_len(a: ParamSeq, b: ParamSeq, name: Seq<char>, value: Seq<char>)
    ensures
        query_len(a + b) == query_len(a) + query_len(b),
        query_len(seq![(name, value)]) == name.len() + value.len() + 2,
        query_len(Seq::<(Seq<char>, Seq<char>)>::empty()) == 0,
    decreases b.len(),
{
    let one = seq![(name, value)];
    assert(one.drop_last() =~= Seq::<(Seq<char>, Seq<char>)>::empty());
    assert(query_len(one.drop_last()) == 0);
    assert(one.last() == (name, value));
    if b.len() == 0 {
        assert(a + b =~= a);
    } else {
        law_query_len(a, b.drop_last(), name, value);
        assert((a + b).drop_last() =~= a + b.drop_last());
    }
}

} // verus!
