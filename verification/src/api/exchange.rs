//! What one call does from its start to its result, as a state machine.
//!
//! The caller runs the exchange: it performs each [`Action`] (notifying the
//! delegate, asking it for an API key or for advice, sending the request,
//! reading and decoding the reply, waiting before a retry) and hands back what
//! came of it as an [`Event`]. Every decision is taken here.

use vstd::prelude::*;
use vstd::string::StringExecFns;
use crate::error::{Error, ErrorView};
use crate::api::params::{
    checked_query_len, contains_name, first_value, is_plain_text, occurs_only_at, json_value_parses, json_value_parse_ok, parse_with_url, remove_params, response_text,
    uri_replacement, url_parses, has_name, lossy_utf8_text, parse_with_url_result, query_len, uri_replacement_result,
    url_char_budget, url_parse_ok, without_names, ParamSeq, lemma_without_names_removes,
};

verus! {

/// The HTTP method of a call.
#[derive(PartialEq, Eq, Structural, Clone, Copy, Debug)]
pub enum HttpMethod {
    Get,
    Put,
}

/// What the caller's delegate answers when it is asked whether to retry.
#[derive(PartialEq, Eq, Structural, Clone, Copy, Debug)]
pub enum Advice {
    /// Give up; the call fails.
    Abort,
    /// Send the request again after waiting this long.
    RetryAfter { secs: u64, nanos: u32 },
}

/// Everything a call needs to know to run: what its builder was set to.
#[derive(Debug)]
pub struct CallPlan {
    /// The identifier of the API method, as the delegate is told it at the start.
    pub id: &'static str,
    /// The HTTP method.
    pub method: HttpMethod,
    /// The names of the parameters that the call sets itself, in the order in
    /// which the free form parameters are checked against them.
    pub reserved: Vec<String>,
    /// The parameters that the builder set, in the order in which they are sent.
    pub leading: Vec<(String, String)>,
    /// The free form parameters, in the order in which they are sent.
    pub additional: Vec<(String, String)>,
    /// The URL before the path parameters are substituted.
    pub url_template: String,
    /// The value of the `User-Agent` header.
    pub user_agent: String,
    /// The value of the `Content-Type` header, where the request has a body.
    pub content_type: Option<String>,
}

/// The mathematical value of a [`CallPlan`].
pub struct CallPlanView {
    pub id: Seq<char>,
    pub method: HttpMethod,
    pub reserved: Seq<Seq<char>>,
    pub leading: ParamSeq,
    pub additional: ParamSeq,
    pub url_template: Seq<char>,
    pub user_agent: Seq<char>,
    pub content_type: Option<Seq<char>>,
}

impl View for CallPlan {
    type V = CallPlanView;

    open spec fn view(&self) -> CallPlanView {
        CallPlanView {
            id: self.id@,
            method: self.method,
            reserved: self.reserved.deep_view(),
            leading: self.leading.deep_view(),
            additional: self.additional.deep_view(),
            url_template: self.url_template@,
            user_agent: self.user_agent@,
            content_type: match self.content_type {
                Some(t) => Some(t@),
                None => None,
            },
        }
    }
}

/// Where an exchange stands.
#[derive(Debug, PartialEq, Eq)]
pub enum Phase {
    /// Nothing has happened yet.
    Created,
    /// The delegate was told that the call begins.
    Begun,
    /// The delegate was asked for the API key.
    AwaitingApiKey,
    /// The delegate was told that a request is about to be sent.
    Prepared,
    /// The request was sent; its reply is awaited.
    Sending,
    /// The call waits before it sends the request again.
    Waiting,
    /// The connection failed; the delegate's advice is awaited.
    AwaitingErrorAdvice,
    /// The server answered with this non-success status, with a body that is
    /// or is not a JSON value; the delegate's advice is awaited.
    AwaitingFailureAdvice { status: u16, error_is_json: bool },
    /// The server answered with success; the outcome of decoding this body text is awaited.
    AwaitingDecode(String),
    /// The call is over.
    Done,
}

/// The mathematical value of a [`Phase`].
pub enum PhaseView {
    Created,
    Begun,
    AwaitingApiKey,
    Prepared,
    Sending,
    Waiting,
    AwaitingErrorAdvice,
    AwaitingFailureAdvice { status: u16, error_is_json: bool },
    AwaitingDecode(Seq<char>),
    Done,
}

impl View for Phase {
    type V = PhaseView;

    open spec fn view(&self) -> PhaseView {
        match self {
            Phase::Created => PhaseView::Created,
            Phase::Begun => PhaseView::Begun,
            Phase::AwaitingApiKey => PhaseView::AwaitingApiKey,
            Phase::Prepared => PhaseView::Prepared,
            Phase::Sending => PhaseView::Sending,
            Phase::Waiting => PhaseView::Waiting,
            Phase::AwaitingErrorAdvice => PhaseView::AwaitingErrorAdvice,
            Phase::AwaitingFailureAdvice { status, error_is_json } => PhaseView::AwaitingFailureAdvice {
                status: *status,
                error_is_json: *error_is_json,
            },
            Phase::AwaitingDecode(t) => PhaseView::AwaitingDecode(t@),
            Phase::Done => PhaseView::Done,
        }
    }
}

/// What came of the last action.
#[derive(Debug, PartialEq, Eq)]
pub enum Event {
    /// The last action was performed and has no result of its own.
    Proceed,
    /// The delegate's API key.
    ApiKey(Option<String>),
    /// The request could not be sent or no reply came.
    TransportError,
    /// The server replied with this status and body.
    Replied { status: u16, body: Vec<u8> },
    /// The delegate's advice on a failed connection.
    HttpErrorAdvice(Advice),
    /// The delegate's advice on a non-success status.
    HttpFailureAdvice(Advice),
    /// Whether the body of a successful reply decoded into the response type.
    Decoded(bool),
}

/// The mathematical value of an [`Event`].
pub enum EventView {
    Proceed,
    ApiKey(Option<Seq<char>>),
    TransportError,
    Replied { status: u16, body: Seq<u8> },
    HttpErrorAdvice(Advice),
    HttpFailureAdvice(Advice),
    Decoded(bool),
}

impl View for Event {
    type V = EventView;

    open spec fn view(&self) -> EventView {
        match self {
            Event::Proceed => EventView::Proceed,
            Event::ApiKey(k) => EventView::ApiKey(
                match k {
                    Some(k) => Some(k@),
                    None => None,
                },
            ),
            Event::TransportError => EventView::TransportError,
            Event::Replied { status, body } => EventView::Replied { status: *status, body: body@ },
            Event::HttpErrorAdvice(a) => EventView::HttpErrorAdvice(*a),
            Event::HttpFailureAdvice(a) => EventView::HttpFailureAdvice(*a),
            Event::Decoded(ok) => EventView::Decoded(*ok),
        }
    }
}

/// What the caller is to do next.
#[derive(Debug, PartialEq, Eq)]
pub enum Action {
    /// Tell the delegate that the call begins.
    Begin,
    /// Ask the delegate for the API key.
    AskApiKey,
    /// Tell the delegate that a request is about to be sent.
    PreRequest,
    /// Send the request to [`Exchange::url`] with the plan's method and headers.
    Send,
    /// Ask the delegate whether to retry after the connection failed.
    AskHttpErrorAdvice,
    /// Ask the delegate whether to retry after a non-success status, handing it
    /// this body text read as a JSON value, where it is one.
    AskHttpFailureAdvice(String),
    /// Decode this body text into the response type.
    Decode(String),
    /// Wait this long before the same request is sent again.
    Retry { secs: u64, nanos: u32 },
    /// The call is over with this result; where `notify` is set, tell the
    /// delegate that it finished, and whether it succeeded.
    Finish { notify: bool, result: Result<(), Error> },
    /// The URL that the request would go to does not parse; the call cannot go on.
    UnusableUrl(String),
    /// The event does not belong to this phase; nothing changed.
    Ignored,
}

/// The mathematical value of an [`Action`].
pub enum ActionView {
    Begin,
    AskApiKey,
    PreRequest,
    Send,
    AskHttpErrorAdvice,
    AskHttpFailureAdvice(Seq<char>),
    Decode(Seq<char>),
    Retry { secs: u64, nanos: u32 },
    Finish { notify: bool, result: Result<(), ErrorView> },
    UnusableUrl(Seq<char>),
    Ignored,
}

impl View for Action {
    type V = ActionView;

    open spec fn view(&self) -> ActionView {
        match self {
            Action::Begin => ActionView::Begin,
            Action::AskApiKey => ActionView::AskApiKey,
            Action::PreRequest => ActionView::PreRequest,
            Action::Send => ActionView::Send,
            Action::AskHttpErrorAdvice => ActionView::AskHttpErrorAdvice,
            Action::AskHttpFailureAdvice(t) => ActionView::AskHttpFailureAdvice(t@),
            Action::Decode(t) => ActionView::Decode(t@),
            Action::Retry { secs, nanos } => ActionView::Retry { secs: *secs, nanos: *nanos },
            Action::Finish { notify, result } => ActionView::Finish {
                notify: *notify,
                result: match result {
                    Ok(()) => Ok(()),
                    Err(e) => Err(e@),
                },
            },
            Action::UnusableUrl(u) => ActionView::UnusableUrl(u@),
            Action::Ignored => ActionView::Ignored,
        }
    }
}

/// One run of a call.
#[derive(Debug)]
pub struct Exchange {
    plan: CallPlan,
    phase: Phase,
    url: String,
}

/// The mathematical value of an [`Exchange`].
pub struct ExchangeView {
    pub plan: CallPlanView,
    pub phase: PhaseView,
    /// The URL of the request; empty until the API key is known.
    pub url: Seq<char>,
}

impl View for Exchange {
    type V = ExchangeView;

    closed spec fn view(&self) -> ExchangeView {
        ExchangeView { plan: self.plan@, phase: self.phase@, url: self.url@ }
    }
}

/// A status code in the success class (200 to 299), as `http::StatusCode::is_success` has it.
pub open spec fn is_success_status(status: u16) -> bool {
    200 <= status <= 299
}

/// The first of the names in `reserved` that is also the name of a free form parameter.
pub open spec fn first_clash(reserved: Seq<Seq<char>>, additional: ParamSeq) -> Option<Seq<char>>
    decreases reserved.len(),
{
    if reserved.len() == 0 {
        None
    } else if has_name(additional, reserved[0]) {
        Some(reserved[0])
    } else {
        first_clash(reserved.drop_first(), additional)
    }
}

/// The parameters of a request, in the order in which they are added: the
/// builder's own, the free form ones, the response format, and the API key.
pub open spec fn request_params(plan: CallPlanView, key: Seq<char>) -> ParamSeq {
    plan.leading + plan.additional + seq![("alt"@, "json"@), ("key"@, key)]
}

/// The URL after the project is substituted for its placeholder.
pub open spec fn substituted_url(plan: CallPlanView, key: Seq<char>) -> Seq<char> {
    uri_replacement_result(request_params(plan, key), plan.url_template, "project"@, "{+project}"@, true)
}

/// The parameters that go into the query string: all but the path parameter.
pub open spec fn query_params(plan: CallPlanView, key: Seq<char>) -> ParamSeq {
    without_names(request_params(plan, key), seq!["project"@])
}

/// Where the placeholder occurs once in the URL template and the project
/// has only plain characters, the substituted URL is the template with the
/// project in place of the placeholder.
pub open spec fn plain_substitution(plan: CallPlanView, key: Seq<char>) -> bool {
    forall|i: int|
        #![trigger occurs_only_at(plan.url_template, "{+project}"@, i)]
        occurs_only_at(plan.url_template, "{+project}"@, i) && is_plain_text(
            first_value(request_params(plan, key), "project"@),
        ) ==> substituted_url(plan, key) == plan.url_template.take(i) + first_value(request_params(plan, key), "project"@)
            + plan.url_template.skip(i + "{+project}"@.len())
}

/// Whether the substituted URL parses and fits, with its query, in [`url_char_budget`].
pub open spec fn url_usable(plan: CallPlanView, key: Seq<char>) -> bool {
    &&& url_parse_ok(substituted_url(plan, key))
    &&& substituted_url(plan, key).len() + query_len(query_params(plan, key)) <= url_char_budget()
}

/// The URL that the request is sent to.
pub open spec fn request_url(plan: CallPlanView, key: Seq<char>) -> Seq<char> {
    parse_with_url_result(query_params(plan, key), substituted_url(plan, key))
}

impl ExchangeView {
    pub open spec fn in_phase(self, phase: PhaseView) -> ExchangeView {
        ExchangeView { phase, ..self }
    }
}

/// One step of an exchange: the phase it moves to and the action it asks for.
pub open spec fn step_spec(x: ExchangeView, e: EventView) -> (ExchangeView, ActionView) {
    match x.phase {
        PhaseView::Created => match e {
            EventView::Proceed => (x.in_phase(PhaseView::Begun), ActionView::Begin),
            _ => (x, ActionView::Ignored),
        },
        PhaseView::Begun => match e {
            EventView::Proceed => match first_clash(x.plan.reserved, x.plan.additional) {
                Some(f) => (
                    x.in_phase(PhaseView::Done),
                    ActionView::Finish { notify: true, result: Err(ErrorView::FieldClash(f)) },
                ),
                None => (x.in_phase(PhaseView::AwaitingApiKey), ActionView::AskApiKey),
            },
            _ => (x, ActionView::Ignored),
        },
        PhaseView::AwaitingApiKey => match e {
            EventView::ApiKey(None) => (
                x.in_phase(PhaseView::Done),
                ActionView::Finish { notify: true, result: Err(ErrorView::MissingAPIKey) },
            ),
            EventView::ApiKey(Some(key)) => if url_usable(x.plan, key) {
                (
                    ExchangeView { plan: x.plan, phase: PhaseView::Prepared, url: request_url(x.plan, key) },
                    ActionView::PreRequest,
                )
            } else {
                (x.in_phase(PhaseView::Done), ActionView::UnusableUrl(substituted_url(x.plan, key)))
            },
            _ => (x, ActionView::Ignored),
        },
        PhaseView::Prepared => match e {
            EventView::Proceed => (x.in_phase(PhaseView::Sending), ActionView::Send),
            _ => (x, ActionView::Ignored),
        },
        PhaseView::Waiting => match e {
            EventView::Proceed => (x.in_phase(PhaseView::Prepared), ActionView::PreRequest),
            _ => (x, ActionView::Ignored),
        },
        PhaseView::Sending => match e {
            EventView::TransportError => (x.in_phase(PhaseView::AwaitingErrorAdvice), ActionView::AskHttpErrorAdvice),
            EventView::Replied { status, body } => if is_success_status(status) {
                (
                    x.in_phase(PhaseView::AwaitingDecode(lossy_utf8_text(body))),
                    ActionView::Decode(lossy_utf8_text(body)),
                )
            } else {
                (
                    x.in_phase(PhaseView::AwaitingFailureAdvice {
                        status,
                        error_is_json: json_value_parse_ok(lossy_utf8_text(body)),
                    }),
                    ActionView::AskHttpFailureAdvice(lossy_utf8_text(body)),
                )
            },
            _ => (x, ActionView::Ignored),
        },
        PhaseView::AwaitingErrorAdvice => match e {
            EventView::HttpErrorAdvice(Advice::RetryAfter { secs, nanos }) => (
                x.in_phase(PhaseView::Waiting),
                ActionView::Retry { secs, nanos },
            ),
            EventView::HttpErrorAdvice(Advice::Abort) => (
                x.in_phase(PhaseView::Done),
                ActionView::Finish { notify: true, result: Err(ErrorView::HttpError) },
            ),
            _ => (x, ActionView::Ignored),
        },
        PhaseView::AwaitingFailureAdvice { status, error_is_json } => match e {
            EventView::HttpFailureAdvice(Advice::RetryAfter { secs, nanos }) => (
                x.in_phase(PhaseView::Waiting),
                ActionView::Retry { secs, nanos },
            ),
            EventView::HttpFailureAdvice(Advice::Abort) => (
                x.in_phase(PhaseView::Done),
                ActionView::Finish {
                    notify: true,
                    result: Err(if error_is_json { ErrorView::BadRequest } else { ErrorView::Failure(status) }),
                },
            ),
            _ => (x, ActionView::Ignored),
        },
        PhaseView::AwaitingDecode(text) => match e {
            EventView::Decoded(true) => (
                x.in_phase(PhaseView::Done),
                ActionView::Finish { notify: true, result: Ok(()) },
            ),
            EventView::Decoded(false) => (
                x.in_phase(PhaseView::Done),
                ActionView::Finish { notify: false, result: Err(ErrorView::JsonDecodeError(text)) },
            ),
            _ => (x, ActionView::Ignored),
        },
        PhaseView::Done => (x, ActionView::Ignored),
    }
}

} // verus!

verus! {

/// A copy of `params`.
fn copy_params(params: &Vec<(String, String)>) -> (r: Vec<(String, String)>)
    ensures
        r.deep_view() == params.deep_view(),
{
    let mut r: Vec<(String, String)> = Vec::new();
    append_params(&mut r, params);
    assert(r.deep_view() =~= params.deep_view());
    r
}

/// Appends `more` to `params`.
fn append_params(params: &mut Vec<(String, String)>, more: &Vec<(String, String)>)
    ensures
        final(params).deep_view() == old(params).deep_view() + more.deep_view(),
{
    let ghost start = params.deep_view();
    let mut i: usize = 0;
    while i < more.len()
        invariant
            i <= more.len(),
            params.deep_view() == start + more.deep_view().take(i as int),
        decreases more.len() - i,
    {
        let entry = (more[i].0.clone(), more[i].1.clone());
        let ghost before = params.deep_view();
        params.push(entry);
        assert(params.deep_view() =~= before.push(more.deep_view()[i as int]));
        assert(more.deep_view().take(i + 1) =~= more.deep_view().take(i as int).push(more.deep_view()[i as int]));
        assert(params.deep_view() =~= start + more.deep_view().take(i + 1));
        i = i + 1;
    }
    assert(more.deep_view().take(more.len() as int) =~= more.deep_view());
}

/// The first of `reserved` that names a parameter of `additional`.
fn find_clash(reserved: &Vec<String>, additional: &Vec<(String, String)>) -> (r: Option<String>)
    ensures
        match r {
            Some(f) => first_clash(reserved.deep_view(), additional.deep_view()) == Some(f@),
            None => first_clash(reserved.deep_view(), additional.deep_view()) is None,
        },
{
    let ghost names = reserved.deep_view();
    let ghost add = additional.deep_view();
    let mut i: usize = 0;
    assert(names.skip(0) =~= names);
    while i < reserved.len()
        invariant
            i <= reserved.len(),
            names == reserved.deep_view(),
            add == additional.deep_view(),
            first_clash(names, add) == first_clash(names.skip(i as int), add),
        decreases reserved.len() - i,
    {
        assert(names.skip(i as int)[0] == names[i as int]);
        assert(names.skip(i as int).drop_first() =~= names.skip(i + 1));
        if contains_name(additional, &reserved[i]) {
            return Some(reserved[i].clone());
        }
        i = i + 1;
    }
    assert(names.skip(i as int).len() == 0);
    None
}

impl Exchange {
    /// An exchange that has not started.
    pub fn new(plan: CallPlan) -> (x: Exchange)
        ensures
            x@.plan == plan@,
            x@.phase == PhaseView::Created,
            x@.url == Seq::<char>::empty(),
    {
        Exchange { plan, phase: Phase::Created, url: String::new() }
    }

    /// What the call was set to.
    pub fn plan(&self) -> (p: &CallPlan)
        ensures
            p@ == self@.plan,
    {
        &self.plan
    }

    /// Where the exchange stands.
    pub fn phase(&self) -> (p: &Phase)
        ensures
            p@ == self@.phase,
    {
        &self.phase
    }

    /// The URL of the request; empty until the API key is known.
    pub fn url(&self) -> (u: &String)
        ensures
            u@ == self@.url,
    {
        &self.url
    }

    /// The URL that the request goes to with this API key, or, where that URL
    /// cannot be built, the URL before its query was added.
    fn url_for_key(&self, key: String) -> (r: Result<String, String>)
        ensures
            url_usable(self@.plan, key@) ==> (r matches Ok(u) && u@ == request_url(self@.plan, key@)),
            !url_usable(self@.plan, key@) ==> (r matches Err(u) && u@ == substituted_url(self@.plan, key@)),
            plain_substitution(self@.plan, key@),
    {
        let ghost plan = self@.plan;
        let mut params = copy_params(&self.plan.leading);
        append_params(&mut params, &self.plan.additional);
        params.push((String::from_str("alt"), String::from_str("json")));
        params.push((String::from_str("key"), key));
        assert(params.deep_view() =~= request_params(plan, key@));
        proof {
            reveal_strlit("{+project}");
        }
        let url = uri_replacement(&params, self.plan.url_template.clone(), "project", "{+project}", true);
        let mut to_remove: Vec<String> = Vec::new();
        to_remove.push(String::from_str("project"));
        assert(to_remove.deep_view() =~= seq!["project"@]);
        let params = remove_params(params, &to_remove);
        assert(params.deep_view() == query_params(plan, key@));
        if !url_parses(url.as_str()) {
            return Err(url);
        }
        let budget: usize = 300_000_000;
        match checked_query_len(url.as_str(), &params, budget) {
            Some(_) => Ok(parse_with_url(&params, url.as_str())),
            None => Err(url),
        }
    }

    /// Takes one step: moves on according to `event`, and says what to do next.
    pub fn step(&mut self, event: Event) -> (a: Action)
        ensures
            (final(self)@, a@) == step_spec(old(self)@, event@),
            event@ matches EventView::ApiKey(Some(key)) ==> (old(self)@.phase == PhaseView::AwaitingApiKey
                ==> plain_substitution(old(self)@.plan, key)),
    {
        let mut phase = Phase::Done;
        std::mem::swap(&mut phase, &mut self.phase);
        match phase {
            Phase::Created => match event {
                Event::Proceed => {
                    self.phase = Phase::Begun;
                    Action::Begin
                },
                _ => {
                    self.phase = Phase::Created;
                    Action::Ignored
                },
            },
            Phase::Begun => match event {
                Event::Proceed => match find_clash(&self.plan.reserved, &self.plan.additional) {
                    Some(f) => {
                        self.phase = Phase::Done;
                        Action::Finish { notify: true, result: Err(Error::FieldClash(f)) }
                    },
                    None => {
                        self.phase = Phase::AwaitingApiKey;
                        Action::AskApiKey
                    },
                },
                _ => {
                    self.phase = Phase::Begun;
                    Action::Ignored
                },
            },
            Phase::AwaitingApiKey => match event {
                Event::ApiKey(None) => {
                    self.phase = Phase::Done;
                    Action::Finish { notify: true, result: Err(Error::MissingAPIKey) }
                },
                Event::ApiKey(Some(key)) => match self.url_for_key(key) {
                    Ok(url) => {
                        self.url = url;
                        self.phase = Phase::Prepared;
                        Action::PreRequest
                    },
                    Err(url) => {
                        self.phase = Phase::Done;
                        Action::UnusableUrl(url)
                    },
                },
                _ => {
                    self.phase = Phase::AwaitingApiKey;
                    Action::Ignored
                },
            },
            Phase::Prepared => match event {
                Event::Proceed => {
                    self.phase = Phase::Sending;
                    Action::Send
                },
                _ => {
                    self.phase = Phase::Prepared;
                    Action::Ignored
                },
            },
            Phase::Waiting => match event {
                Event::Proceed => {
                    self.phase = Phase::Prepared;
                    Action::PreRequest
                },
                _ => {
                    self.phase = Phase::Waiting;
                    Action::Ignored
                },
            },
            Phase::Sending => match event {
                Event::TransportError => {
                    self.phase = Phase::AwaitingErrorAdvice;
                    Action::AskHttpErrorAdvice
                },
                Event::Replied { status, body } => {
                    let text = response_text(&body);
                    if 200 <= status && status <= 299 {
                        self.phase = Phase::AwaitingDecode(text.clone());
                        Action::Decode(text)
                    } else {
                        let error_is_json = json_value_parses(text.as_str());
                        self.phase = Phase::AwaitingFailureAdvice { status, error_is_json };
                        Action::AskHttpFailureAdvice(text)
                    }
                },
                _ => {
                    self.phase = Phase::Sending;
                    Action::Ignored
                },
            },
            Phase::AwaitingErrorAdvice => match event {
                Event::HttpErrorAdvice(Advice::RetryAfter { secs, nanos }) => {
                    self.phase = Phase::Waiting;
                    Action::Retry { secs, nanos }
                },
                Event::HttpErrorAdvice(Advice::Abort) => {
                    self.phase = Phase::Done;
                    Action::Finish { notify: true, result: Err(Error::HttpError) }
                },
                _ => {
                    self.phase = Phase::AwaitingErrorAdvice;
                    Action::Ignored
                },
            },
            Phase::AwaitingFailureAdvice { status, error_is_json } => match event {
                Event::HttpFailureAdvice(Advice::RetryAfter { secs, nanos }) => {
                    self.phase = Phase::Waiting;
                    Action::Retry { secs, nanos }
                },
                Event::HttpFailureAdvice(Advice::Abort) => {
                    self.phase = Phase::Done;
                    let e = if error_is_json { Error::BadRequest } else { Error::Failure(status) };
                    Action::Finish { notify: true, result: Err(e) }
                },
                _ => {
                    self.phase = Phase::AwaitingFailureAdvice { status, error_is_json };
                    Action::Ignored
                },
            },
            Phase::AwaitingDecode(text) => match event {
                Event::Decoded(true) => {
                    self.phase = Phase::Done;
                    Action::Finish { notify: true, result: Ok(()) }
                },
                Event::Decoded(false) => {
                    self.phase = Phase::Done;
                    Action::Finish { notify: false, result: Err(Error::JsonDecodeError(text)) }
                },
                _ => {
                    self.phase = Phase::AwaitingDecode(text);
                    Action::Ignored
                },
            },
            Phase::Done => {
                self.phase = Phase::Done;
                Action::Ignored
            },
        }
    }
}

} // verus!

verus! {

/// The actions of a run of events, one per event, and the state it ends in.
pub open spec fn run(x: ExchangeView, events: Seq<EventView>) -> (ExchangeView, Seq<ActionView>)
    decreases events.len(),
{
    if events.len() == 0 {
        (x, Seq::empty())
    } else {
        let (y, actions) = run(x, events.drop_last());
        let (z, a) = step_spec(y, events.last());
        (z, actions.push(a))
    }
}

/// A call ends with a result exactly where it is done: a `Finish` action moves
/// the exchange to its last phase, and the delegate is told that the call
/// finished in every case but one, a successful reply whose body does not decode.
pub proof fn lemma_finish_ends_call(x: ExchangeView, e: EventView)
    ensures
        step_spec(x, e).1 matches ActionView::Finish { notify, result } ==> {
            &&& step_spec(x, e).0.phase == PhaseView::Done
            &&& x.phase != PhaseView::Done
            &&& notify == !(result matches Err(ErrorView::JsonDecodeError(_)))
        },
{
}

/// Once a call is done, nothing moves it any more.
pub proof fn lemma_done_is_final(x: ExchangeView, events: Seq<EventView>)
    requires
        x.phase == PhaseView::Done,
    ensures
        run(x, events).0 == x,
        forall|i: int| 0 <= i < events.len() ==> run(x, events).1[i] == ActionView::Ignored,
        run(x, events).1.len() == events.len(),
    decreases events.len(),
{
    if events.len() > 0 {
        lemma_done_is_final(x, events.drop_last());
    }
}

/// An event that does not belong to the phase changes nothing.
pub proof fn lemma_ignored_changes_nothing(x: ExchangeView, e: EventView)
    ensures
        step_spec(x, e).1 == ActionView::Ignored ==> step_spec(x, e).0 == x,
{
}

/// A call begins by telling the delegate so, and does nothing before.
pub proof fn lemma_begin_comes_first(x: ExchangeView, e: EventView)
    requires
        x.phase == PhaseView::Created,
    ensures
        step_spec(x, e).1 == ActionView::Begin || step_spec(x, e).1 == ActionView::Ignored,
        step_spec(x, e).1 == ActionView::Begin <==> e == EventView::Proceed,
{
}

/// A retry waits, then sends the same request again: same plan, same URL.
pub proof fn lemma_retry_resends_same_request(x: ExchangeView, e: EventView)
    ensures
        step_spec(x, e).1 is Retry ==> {
            &&& step_spec(x, e).0.phase == PhaseView::Waiting
            &&& step_spec(x, e).0.url == x.url
            &&& step_spec(x, e).0.plan == x.plan
        },
{
}

/// A call succeeds only after a reply with a success status whose body decoded.
pub proof fn lemma_success_needs_decoded_reply(x: ExchangeView, e: EventView)
    ensures
        step_spec(x, e).1 == (ActionView::Finish { notify: true, result: Ok(()) }) ==> {
            &&& x.phase is AwaitingDecode
            &&& e == EventView::Decoded(true)
        },
{
}

/// A reply with a success status goes on to decoding its body; a reply with
/// any other status goes to the delegate for advice, and never to success.
pub proof fn lemma_reply_routing(x: ExchangeView, status: u16, body: Seq<u8>)
    requires
        x.phase == PhaseView::Sending,
    ensures
        is_success_status(status) ==> step_spec(x, EventView::Replied { status, body }) == (
            x.in_phase(PhaseView::AwaitingDecode(lossy_utf8_text(body))),
            ActionView::Decode(lossy_utf8_text(body)),
        ),
        !is_success_status(status) ==> step_spec(x, EventView::Replied { status, body }) == (
            x.in_phase(PhaseView::AwaitingFailureAdvice {
                status,
                error_is_json: json_value_parse_ok(lossy_utf8_text(body)),
            }),
            ActionView::AskHttpFailureAdvice(lossy_utf8_text(body)),
        ),
{
}

/// A free form parameter clashes exactly where its name is reserved, and the
/// clash reported is the first reserved name, in the order of `reserved`, that
/// is set.
pub proof fn lemma_first_clash(reserved: Seq<Seq<char>>, additional: ParamSeq)
    ensures
        first_clash(reserved, additional) is None <==> forall|i: int|
            0 <= i < reserved.len() ==> !has_name(additional, #[trigger] reserved[i]),
        first_clash(reserved, additional) matches Some(f) ==> exists|i: int|
            0 <= i < reserved.len() && reserved[i] == f && has_name(additional, f)
            && forall|j: int| 0 <= j < i ==> !has_name(additional, #[trigger] reserved[j]),
    decreases reserved.len(),
{
    if reserved.len() > 0 {
        let rest = reserved.drop_first();
        lemma_first_clash(rest, additional);
        if !has_name(additional, reserved[0]) {
            assert forall|i: int| 1 <= i < reserved.len() implies reserved[i] == #[trigger] rest[i - 1] by {}
            if let Some(f) = first_clash(rest, additional) {
                let k = choose|k: int| 0 <= k < rest.len() && rest[k] == f && has_name(additional, f)
                    && forall|j: int| 0 <= j < k ==> !has_name(additional, #[trigger] rest[j]);
                assert(reserved[k + 1] == f);
                assert forall|j: int| 0 <= j < k + 1 implies !has_name(additional, #[trigger] reserved[j]) by {
                    if j > 0 {
                        assert(reserved[j] == rest[j - 1]);
                    }
                }
            } else {
                assert forall|i: int| 0 <= i < reserved.len() implies !has_name(additional, #[trigger] reserved[i]) by {
                    if i > 0 {
                        assert(reserved[i] == rest[i - 1]);
                    }
                }
            }
        }
    }
}

} // verus!

verus! {

/// The path parameter never goes into the query string.
pub proof fn lemma_query_has_no_path_param(plan: CallPlanView, key: Seq<char>)
    ensures
        !has_name(query_params(plan, key), "project"@),
{
    let q = query_params(plan, key);
    lemma_without_names_removes(request_params(plan, key), seq!["project"@]);
    if has_name(q, "project"@) {
        let i = choose|i: int| 0 <= i < q.len() && #[trigger] q[i].0 == "project"@;
        assert(seq!["project"@].contains(q[i].0)) by {
            assert(seq!["project"@][0] == q[i].0);
        }
    }
}

} // verus!

verus! {

/// Whether an action ends the call.
pub open spec fn ends_call(a: ActionView) -> bool {
    a is Finish || a is UnusableUrl
}

/// A step that finishes the call ends it with a result or with an unusable
/// URL, and no step goes back to the start.
pub proof fn lemma_ending_steps(x: ExchangeView, e: EventView)
    ensures
        x.phase != PhaseView::Done && step_spec(x, e).0.phase == PhaseView::Done ==> ends_call(step_spec(x, e).1),
        ends_call(step_spec(x, e).1) ==> step_spec(x, e).0.phase == PhaseView::Done && x.phase != PhaseView::Done,
        step_spec(x, e).0.phase == PhaseView::Created ==> x.phase == PhaseView::Created,
{
}

/// A run has one action per event.
pub proof fn lemma_run_len(x: ExchangeView, events: Seq<EventView>)
    ensures
        run(x, events).1.len() == events.len(),
    decreases events.len(),
{
    if events.len() > 0 {
        lemma_run_len(x, events.drop_last());
    }
}

/// The actions of a run are those of its steps, one after the other.
pub proof fn lemma_run_step(x: ExchangeView, events: Seq<EventView>, i: int)
    requires
        0 <= i < events.len(),
    ensures
        run(x, events).1.len() == events.len(),
        run(x, events.take(i + 1)).0 == step_spec(run(x, events.take(i)).0, events[i]).0,
        run(x, events).1[i] == step_spec(run(x, events.take(i)).0, events[i]).1,
    decreases events.len(),
{
    assert(events.take(i + 1).drop_last() =~= events.take(i));
    assert(events.take(i + 1).last() == events[i]);
    lemma_run_len(x, events);
    lemma_run_len(x, events.drop_last());
    if i == events.len() - 1 {
        assert(events.take(i + 1) =~= events);
        assert(events.drop_last() =~= events.take(i));
    } else {
        lemma_run_step(x, events.drop_last(), i);
        assert(events.drop_last().take(i) =~= events.take(i));
        assert(events.drop_last().take(i + 1) =~= events.take(i + 1));
    }
}

/// After the action that ends a call, every later action of the run is
/// `Ignored`: a call ends at most once, and the delegate hears of its end at
/// most once.
pub proof fn lemma_call_ends_once(x: ExchangeView, events: Seq<EventView>, i: int, j: int)
    requires
        0 <= i < j < events.len(),
        ends_call(run(x, events).1[i]),
    ensures
        run(x, events).1[j] == ActionView::Ignored,
        run(x, events.take(j)).0.phase == PhaseView::Done,
    decreases j - i,
{
    lemma_run_step(x, events, i);
    lemma_ending_steps(run(x, events.take(i)).0, events[i]);
    if j == i + 1 {
    } else {
        lemma_call_ends_once(x, events, i, j - 1);
        lemma_run_step(x, events, j - 1);
    }
    lemma_run_step(x, events, j);
}

} // verus!

verus! {

/// Only a call that has not started can begin.
proof fn lemma_begin_needs_start(x: ExchangeView, e: EventView)
    ensures
        step_spec(x, e).1 == ActionView::Begin ==> x.phase == PhaseView::Created,
{
}

/// Once begun, a run never returns to its start.
proof fn lemma_never_restarts(x: ExchangeView, events: Seq<EventView>, i: int, j: int)
    requires
        0 <= i < j <= events.len(),
        run(x, events).1[i] == ActionView::Begin,
    ensures
        run(x, events.take(j)).0.phase != PhaseView::Created,
    decreases j - i,
{
    lemma_run_step(x, events, i);
    if j > i + 1 {
        lemma_never_restarts(x, events, i, j - 1);
        lemma_run_step(x, events, j - 1);
        lemma_ending_steps(run(x, events.take(j - 1)).0, events[j - 1]);
    }
}

/// The delegate is told at most once that a call begins.
pub proof fn lemma_call_begins_once(x: ExchangeView, events: Seq<EventView>, i: int, j: int)
    requires
        0 <= i < j < events.len(),
        run(x, events).1[i] == ActionView::Begin,
    ensures
        run(x, events).1[j] != ActionView::Begin,
{
    lemma_never_restarts(x, events, i, j);
    lemma_run_step(x, events, j);
    lemma_begin_needs_start(run(x, events.take(j)).0, events[j]);
}

} // verus!

verus! {

/// The advice that an event carries, if it is one of the delegate's answers.
pub open spec fn event_advice(e: EventView) -> Option<Advice> {
    match e {
        EventView::HttpErrorAdvice(a) => Some(a),
        EventView::HttpFailureAdvice(advice) => Some(advice),
        _ => None,
    }
}

/// A call retries only on the delegate's advice, and waits as long as advised;
/// the plan of a call never changes.
pub proof fn lemma_retry_follows_advice(x: ExchangeView, e: EventView)
    ensures
        step_spec(x, e).1 matches ActionView::Retry { secs, nanos } ==> event_advice(e) == Some(
            Advice::RetryAfter { secs, nanos },
        ),
        step_spec(x, e).0.plan == x.plan,
{
}

/// A request is sent only right after the delegate was told that it is about
/// to be sent: `Send` comes only from the phase that `PreRequest` enters, and
/// nothing but `PreRequest` enters it.
pub proof fn lemma_send_follows_pre_request(x: ExchangeView, e: EventView)
    ensures
        step_spec(x, e).1 == ActionView::Send ==> x.phase == PhaseView::Prepared,
        step_spec(x, e).0.phase == PhaseView::Prepared ==> step_spec(x, e).1 == ActionView::PreRequest || (
        step_spec(x, e).1 == ActionView::Ignored && x.phase == PhaseView::Prepared),
{
}

/// The number of `PreRequest` actions.
pub open spec fn pre_requests(actions: Seq<ActionView>) -> nat
    decreases actions.len(),
{
    if actions.len() == 0 {
        0
    } else {
        pre_requests(actions.drop_last()) + if actions.last() == ActionView::PreRequest { 1nat } else { 0nat }
    }
}

/// The number of requests sent.
pub open spec fn sends(actions: Seq<ActionView>) -> nat
    decreases actions.len(),
{
    if actions.len() == 0 {
        0
    } else {
        sends(actions.drop_last()) + if actions.last() == ActionView::Send { 1nat } else { 0nat }
    }
}

/// The number of retries.
pub open spec fn retries(actions: Seq<ActionView>) -> nat
    decreases actions.len(),
{
    if actions.len() == 0 {
        0
    } else {
        retries(actions.drop_last()) + if actions.last() is Retry { 1nat } else { 0nat }
    }
}

/// What holds of the counts of a run from the start, in the state it reached.
pub open spec fn counts_agree(y: ExchangeView, actions: Seq<ActionView>) -> bool {
    let p: nat = if y.phase == PhaseView::Prepared { 1 } else { 0 };
    let w: nat = if y.phase == PhaseView::Waiting { 1 } else { 0 };
    &&& pre_requests(actions) == 0 ==> {
        &&& sends(actions) == 0
        &&& retries(actions) == 0
        &&& (y.phase == PhaseView::Created || y.phase == PhaseView::Begun || y.phase == PhaseView::AwaitingApiKey
            || y.phase == PhaseView::Done)
    }
    &&& pre_requests(actions) > 0 ==> {
        &&& y.phase != PhaseView::Created && y.phase != PhaseView::Begun && y.phase != PhaseView::AwaitingApiKey
        &&& pre_requests(actions) + w == retries(actions) + 1
        &&& sends(actions) + p == pre_requests(actions)
    }
}

proof fn lemma_counts_step(y: ExchangeView, actions: Seq<ActionView>, e: EventView)
    requires
        counts_agree(y, actions),
    ensures
        counts_agree(step_spec(y, e).0, actions.push(step_spec(y, e).1)),
{
    let a = step_spec(y, e).1;
    let more = actions.push(a);
    assert(more.drop_last() =~= actions);
    assert(more.last() == a);
    assert(pre_requests(more) == pre_requests(actions) + if a == ActionView::PreRequest { 1nat } else { 0nat });
    assert(sends(more) == sends(actions) + if a == ActionView::Send { 1nat } else { 0nat });
    assert(retries(more) == retries(actions) + if a is Retry { 1nat } else { 0nat });
    if pre_requests(actions) == 0 {
        assert(!(y.phase is Prepared) && !(y.phase is Waiting) && !(y.phase is Sending));
    }
    match y.phase {
        PhaseView::Created => {},
        PhaseView::Begun => {},
        PhaseView::AwaitingApiKey => {},
        PhaseView::Prepared => {},
        PhaseView::Sending => {},
        PhaseView::Waiting => {},
        PhaseView::AwaitingErrorAdvice => {},
        PhaseView::AwaitingFailureAdvice { .. } => {},
        PhaseView::AwaitingDecode(_) => {},
        PhaseView::Done => {},
    }
}

proof fn lemma_counts_run(x: ExchangeView, events: Seq<EventView>)
    requires
        x.phase == PhaseView::Created,
    ensures
        counts_agree(run(x, events).0, run(x, events).1),
    decreases events.len(),
{
    if events.len() == 0 {
        let empty = Seq::<ActionView>::empty();
        assert(pre_requests(empty) == 0);
        assert(sends(empty) == 0);
        assert(retries(empty) == 0);
    } else {
        lemma_counts_run(x, events.drop_last());
        let (y, actions) = run(x, events.drop_last());
        lemma_counts_step(y, actions, events.last());
    }
}

/// In every run of a call, the delegate is told of each request before it is
/// sent and of at most one request not sent yet; the first request goes out
/// after the API key, each further one after a retry; a call that is over has
/// sent exactly one request more than it retried, if it sent any.
pub proof fn lemma_requests_per_retry(x: ExchangeView, events: Seq<EventView>)
    requires
        x.phase == PhaseView::Created,
    ensures
        sends(run(x, events).1) <= pre_requests(run(x, events).1) <= sends(run(x, events).1) + 1,
        retries(run(x, events).1) <= pre_requests(run(x, events).1) <= retries(run(x, events).1) + 1,
        pre_requests(run(x, events).1) == 0 ==> retries(run(x, events).1) == 0,
        run(x, events).0.phase == PhaseView::Done ==> {
            &&& sends(run(x, events).1) == pre_requests(run(x, events).1)
            &&& sends(run(x, events).1) > 0 ==> sends(run(x, events).1) == retries(run(x, events).1) + 1
        },
{
    lemma_counts_run(x, events);
}

} // verus!

verus! {

/// A non-success reply that the delegate gives up on fails as a bad request
/// exactly where its body text is a JSON value, and as a failure with its
/// status otherwise.
pub proof fn lemma_failure_kind(x: ExchangeView, status: u16, body: Seq<u8>)
    requires
        x.phase == PhaseView::Sending,
        !is_success_status(status),
    ensures
        step_spec(step_spec(x, EventView::Replied { status, body }).0, EventView::HttpFailureAdvice(Advice::Abort)).1
            == (ActionView::Finish {
            notify: true,
            result: Err(
                if json_value_parse_ok(lossy_utf8_text(body)) {
                    ErrorView::BadRequest
                } else {
                    ErrorView::Failure(status)
                },
            ),
        }),
{
}

} // verus!
