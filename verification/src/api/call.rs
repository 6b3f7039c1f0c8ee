//! The call builders of the two methods, and the plan of the request that each
//! of them makes.

use vstd::prelude::*;
use vstd::string::StringExecFns;
use crate::api::exchange::{
    first_clash, lemma_first_clash, plain_substitution, query_params, request_params, substituted_url, CallPlan, CallPlanView, Exchange,
    HttpMethod, PhaseView,
};
use crate::api::hub::{FirebaseRemoteConfig, HubView};
use crate::api::params::{
    distinct_names, first_value, has_name, is_plain_text, occurs_at, occurs_only_at, lemma_with_param_commutes, lemma_with_param_contains,
    lemma_with_param_last_wins, param_map, lemma_without_absent_names, lemma_without_names_append, with_param, without_names, ParamMap,
    ParamSeq,
};
use crate::api::schema::RemoteConfig;

verus! {

/// The path of both methods, below the base URL.
pub open spec fn remote_config_path() -> Seq<char> {
    "v1/{+project}/remoteConfig"@
}

/// How a `bool` is written in a query string, as its `Display` has it.
pub open spec fn bool_text(b: bool) -> Seq<char> {
    if b { "true"@ } else { "false"@ }
}

/// The mathematical value of a [`ProjectGetRemoteConfigCall`].
pub struct GetCallView {
    pub hub: HubView,
    pub project: Seq<char>,
    pub additional: ParamSeq,
}

/// The mathematical value of a [`ProjectUpdateRemoteConfigCall`].
pub struct UpdateCallView {
    pub hub: HubView,
    pub request: RemoteConfig,
    pub project: Seq<char>,
    pub validate_only: Option<bool>,
    pub additional: ParamSeq,
}

/// The request that a get-remote-config call makes.
pub open spec fn get_plan(c: GetCallView) -> CallPlanView {
    CallPlanView {
        id: "firebaseremoteconfig.projects.getRemoteConfig"@,
        method: HttpMethod::Get,
        reserved: seq!["alt"@, "project"@],
        leading: seq![("project"@, c.project)],
        additional: c.additional,
        url_template: c.hub.base_url + remote_config_path(),
        user_agent: c.hub.user_agent,
        content_type: None,
    }
}

/// The request that an update-remote-config call makes.
pub open spec fn update_plan(c: UpdateCallView) -> CallPlanView {
    CallPlanView {
        id: "firebaseremoteconfig.projects.updateRemoteConfig"@,
        method: HttpMethod::Put,
        reserved: seq!["alt"@, "project"@, "validateOnly"@],
        leading: match c.validate_only {
            Some(b) => seq![("project"@, c.project), ("validateOnly"@, bool_text(b))],
            None => seq![("project"@, c.project)],
        },
        additional: c.additional,
        url_template: c.hub.base_url + remote_config_path(),
        user_agent: c.hub.user_agent,
        content_type: Some("application/json"@),
    }
}

/// Calls `mime::APPLICATION_JSON.to_string()`; the crate defines that constant
/// as `application/json` and displays a `Mime` as its source text.
#[verifier::external_body]
fn json_mime_type() -> (s: String)
    ensures
        s@ == "application/json"@,
{
    mime::APPLICATION_JSON.to_string()
}

/// Get the latest version Remote Configuration for a project.
/// Returns the RemoteConfig as the payload, and also the eTag as a
/// response header.
///
/// A builder for the *getRemoteConfig* method supported by a *project* resource.
/// It is not used directly, but through a `ProjectMethods` instance.
pub struct ProjectGetRemoteConfigCall<'a> {
    hub: &'a FirebaseRemoteConfig,
    _project: String,
    _additional_params: ParamMap,
}

impl<'a> View for ProjectGetRemoteConfigCall<'a> {
    type V = GetCallView;

    closed spec fn view(&self) -> GetCallView {
        GetCallView { hub: self.hub@, project: self._project@, additional: self._additional_params@ }
    }
}

impl<'a> ProjectGetRemoteConfigCall<'a> {
    pub(crate) fn new(hub: &'a FirebaseRemoteConfig, project: &str) -> (c: Self)
        ensures
            distinct_names(c@.additional),
            c@ == (GetCallView { hub: hub@, project: project@, additional: Seq::<(Seq<char>, Seq<char>)>::empty() }),
    {
        ProjectGetRemoteConfigCall { hub, _project: String::from_str(project), _additional_params: ParamMap::new() }
    }

    /// The GMP project identifier. Required.
    ///
    /// Sets the *project* path property to the given value.
    ///
    /// Even though the property as already been set when instantiating this call,
    /// this method is provided for API completeness.
    pub fn project(self, new_value: &str) -> (c: Self)
        ensures
            distinct_names(c@.additional),
            c@ == (GetCallView { project: new_value@, ..self@ }),
    {
        let mut c = self;
        c._project = String::from_str(new_value);
        proof {
            use_type_invariant(&c._additional_params);
            ParamMap::lemma_view_distinct(c._additional_params);
        }
        c
    }

    /// Set any additional parameter of the query string used in the request.
    /// It should be used to set parameters which are not yet available through their own
    /// setters. Setting a name again replaces its value.
    ///
    /// This method must not be used to set any of the known parameters
    /// which have their own setter method (`alt`, `project`). If done anyway,
    /// the request will fail.
    pub fn param(self, name: &str, value: &str) -> (c: Self)
        ensures
            distinct_names(c@.additional),
            c@ == (GetCallView { additional: with_param(self@.additional, name@, value@), ..self@ }),
    {
        let mut c = self;
        c._additional_params.insert(String::from_str(name), String::from_str(value));
        proof {
            use_type_invariant(&c._additional_params);
            ParamMap::lemma_view_distinct(c._additional_params);
        }
        c
    }

    /// The run of this call: it starts by telling the delegate that the call
    /// begins, and ends with the call's result.
    pub fn exchange(&self) -> (x: Exchange)
        ensures
            x@.plan == get_plan(self@),
            x@.phase == PhaseView::Created,
            x@.url == Seq::<char>::empty(),
    {
        let mut reserved: Vec<String> = Vec::new();
        reserved.push(String::from_str("alt"));
        reserved.push(String::from_str("project"));
        let mut leading: Vec<(String, String)> = Vec::new();
        leading.push((String::from_str("project"), self._project.clone()));
        let additional = copy_entries(self._additional_params.entries());
        let url_template = self.hub.current_base_url().concat("v1/{+project}/remoteConfig");
        let plan = CallPlan {
            id: "firebaseremoteconfig.projects.getRemoteConfig",
            method: HttpMethod::Get,
            reserved,
            leading,
            additional,
            url_template,
            user_agent: self.hub.current_user_agent(),
            content_type: None,
        };
        assert(plan@.reserved =~= get_plan(self@).reserved);
        assert(plan@.leading =~= get_plan(self@).leading);
        Exchange::new(plan)
    }
}

/// A copy of `params`.
fn copy_entries(params: &Vec<(String, String)>) -> (r: Vec<(String, String)>)
    ensures
        r.deep_view() == params.deep_view(),
{
    let ghost s = params.deep_view();
    let mut r: Vec<(String, String)> = Vec::new();
    let mut i: usize = 0;
    while i < params.len()
        invariant
            i <= params.len(),
            s == params.deep_view(),
            r.deep_view() == s.take(i as int),
        decreases params.len() - i,
    {
        let entry = (params[i].0.clone(), params[i].1.clone());
        let ghost before = r.deep_view();
        r.push(entry);
        assert(r.deep_view() =~= before.push(s[i as int]));
        assert(s.take(i + 1) =~= s.take(i as int).push(s[i as int]));
        i = i + 1;
    }
    assert(s.take(params.len() as int) =~= s);
    r
}

/// Update a RemoteConfig. It is treated as an always-existing resource (when
/// it is not found in the data store, it is treated as version 0, a template
/// with zero conditions and zero parameters). Hence there are no Create or
/// Delete operations. Returns the updated template when successful (and the
/// updated eTag as a response header), or an error if things go wrong.
///
/// A builder for the *updateRemoteConfig* method supported by a *project* resource.
/// It is not used directly, but through a `ProjectMethods` instance.
pub struct ProjectUpdateRemoteConfigCall<'a> {
    hub: &'a FirebaseRemoteConfig,
    _request: RemoteConfig,
    _project: String,
    _validate_only: Option<bool>,
    _additional_params: ParamMap,
}

impl<'a> View for ProjectUpdateRemoteConfigCall<'a> {
    type V = UpdateCallView;

    closed spec fn view(&self) -> UpdateCallView {
        UpdateCallView {
            hub: self.hub@,
            request: self._request,
            project: self._project@,
            validate_only: self._validate_only,
            additional: self._additional_params@,
        }
    }
}

impl<'a> ProjectUpdateRemoteConfigCall<'a> {
    pub(crate) fn new(hub: &'a FirebaseRemoteConfig, request: RemoteConfig, project: &str) -> (c: Self)
        ensures
            distinct_names(c@.additional),
            c@ == (UpdateCallView {
                hub: hub@,
                request: request,
                project: project@,
                validate_only: None,
                additional: Seq::<(Seq<char>, Seq<char>)>::empty(),
            }),
    {
        ProjectUpdateRemoteConfigCall {
            hub,
            _request: request,
            _project: String::from_str(project),
            _validate_only: None,
            _additional_params: ParamMap::new(),
        }
    }

    /// Sets the *request* property to the given value.
    ///
    /// Even though the property as already been set when instantiating this call,
    /// this method is provided for API completeness.
    pub fn request(self, new_value: RemoteConfig) -> (c: Self)
        ensures
            distinct_names(c@.additional),
            c@ == (UpdateCallView { request: new_value, ..self@ }),
    {
        let mut c = self;
        c._request = new_value;
        proof {
            use_type_invariant(&c._additional_params);
            ParamMap::lemma_view_distinct(c._additional_params);
        }
        c
    }

    /// The GMP project identifier. Required.
    ///
    /// Sets the *project* path property to the given value.
    ///
    /// Even though the property as already been set when instantiating this call,
    /// this method is provided for API completeness.
    pub fn project(self, new_value: &str) -> (c: Self)
        ensures
            distinct_names(c@.additional),
            c@ == (UpdateCallView { project: new_value@, ..self@ }),
    {
        let mut c = self;
        c._project = String::from_str(new_value);
        proof {
            use_type_invariant(&c._additional_params);
            ParamMap::lemma_view_distinct(c._additional_params);
        }
        c
    }

    /// Optional. Defaults to `false` (UpdateRemoteConfig call should update the
    /// backend if there are no validation/interal errors). May be set to `true`
    /// to indicate that, should no validation errors occur, the call should
    /// return a "200 OK" instead of performing the update.
    ///
    /// Sets the *validate only* query property to the given value.
    pub fn validate_only(self, new_value: bool) -> (c: Self)
        ensures
            distinct_names(c@.additional),
            c@ == (UpdateCallView { validate_only: Some(new_value), ..self@ }),
    {
        let mut c = self;
        c._validate_only = Some(new_value);
        proof {
            use_type_invariant(&c._additional_params);
            ParamMap::lemma_view_distinct(c._additional_params);
        }
        c
    }

    /// Set any additional parameter of the query string used in the request.
    /// It should be used to set parameters which are not yet available through their own
    /// setters. Setting a name again replaces its value.
    ///
    /// This method must not be used to set any of the known parameters
    /// which have their own setter method (`alt`, `project`, `validateOnly`).
    /// If done anyway, the request will fail.
    pub fn param(self, name: &str, value: &str) -> (c: Self)
        ensures
            distinct_names(c@.additional),
            c@ == (UpdateCallView { additional: with_param(self@.additional, name@, value@), ..self@ }),
    {
        let mut c = self;
        c._additional_params.insert(String::from_str(name), String::from_str(value));
        proof {
            use_type_invariant(&c._additional_params);
            ParamMap::lemma_view_distinct(c._additional_params);
        }
        c
    }

    /// The template that the request sends.
    pub fn body(&self) -> (r: &RemoteConfig)
        ensures
            *r == self@.request,
    {
        &self._request
    }

    /// The run of this call: it starts by telling the delegate that the call
    /// begins, and ends with the call's result. The request carries
    /// [`ProjectUpdateRemoteConfigCall::body`] as JSON.
    pub fn exchange(&self) -> (x: Exchange)
        ensures
            x@.plan == update_plan(self@),
            x@.phase == PhaseView::Created,
            x@.url == Seq::<char>::empty(),
    {
        let mut reserved: Vec<String> = Vec::new();
        reserved.push(String::from_str("alt"));
        reserved.push(String::from_str("project"));
        reserved.push(String::from_str("validateOnly"));
        let mut leading: Vec<(String, String)> = Vec::new();
        leading.push((String::from_str("project"), self._project.clone()));
        match self._validate_only {
            Some(b) => {
                let text = if b { String::from_str("true") } else { String::from_str("false") };
                leading.push((String::from_str("validateOnly"), text));
            },
            None => {},
        }
        let additional = copy_entries(self._additional_params.entries());
        let url_template = self.hub.current_base_url().concat("v1/{+project}/remoteConfig");
        let plan = CallPlan {
            id: "firebaseremoteconfig.projects.updateRemoteConfig",
            method: HttpMethod::Put,
            reserved,
            leading,
            additional,
            url_template,
            user_agent: self.hub.current_user_agent(),
            content_type: Some(json_mime_type()),
        };
        assert(plan@.reserved =~= update_plan(self@).reserved);
        assert(plan@.leading =~= update_plan(self@).leading);
        Exchange::new(plan)
    }
}

} // verus!

verus! {

/// Free form parameters that clash with none of the reserved names hold no `project`.
proof fn lemma_no_clash_no_project(reserved: Seq<Seq<char>>, additional: ParamSeq)
    requires
        reserved.len() >= 2,
        reserved[1] == "project"@,
        first_clash(reserved, additional) is None,
    ensures
        forall|i: int| 0 <= i < additional.len() ==> !seq!["project"@].contains(#[trigger] additional[i].0),
{
    lemma_first_clash(reserved, additional);
    assert(!has_name(additional, reserved[1]));
    assert forall|i: int| 0 <= i < additional.len() implies !seq!["project"@].contains(#[trigger] additional[i].0) by {
        if seq!["project"@].contains(additional[i].0) {
            assert(seq!["project"@][0] == additional[i].0);
        }
    }
}

/// The tail of every query: the response format and the API key, neither of which is `project`.
proof fn lemma_tail_kept(key: Seq<char>)
    ensures
        without_names(seq![("alt"@, "json"@), ("key"@, key)], seq!["project"@]) == seq![("alt"@, "json"@), ("key"@, key)],
{
    reveal_strlit("alt");
    reveal_strlit("key");
    reveal_strlit("project");
    let t = seq![("alt"@, "json"@), ("key"@, key)];
    assert forall|i: int| 0 <= i < t.len() implies !seq!["project"@].contains(#[trigger] t[i].0) by {
        if seq!["project"@].contains(t[i].0) {
            assert(seq!["project"@][0] == t[i].0);
            assert(t[i].0.len() != "project"@.len());
        }
    }
    lemma_without_absent_names(t, seq!["project"@]);
}

/// Where no free form parameter clashes, a get-remote-config request's query
/// holds the free form parameters in order, then `alt=json`, then the API key.
pub proof fn lemma_get_query(c: GetCallView, key: Seq<char>)
    requires
        first_clash(get_plan(c).reserved, c.additional) is None,
    ensures
        query_params(get_plan(c), key) == c.additional + seq![("alt"@, "json"@), ("key"@, key)],
{
    let plan = get_plan(c);
    let names = seq!["project"@];
    let lead = plan.leading;
    let tail = seq![("alt"@, "json"@), ("key"@, key)];
    assert(request_params(plan, key) == (lead + c.additional) + tail);
    lemma_without_names_append(lead + c.additional, tail, names);
    lemma_without_names_append(lead, c.additional, names);
    assert(names.contains(lead[0].0)) by {
        assert(names[0] == lead[0].0);
    }
    assert(lead.drop_last().len() == 0);
    assert(without_names(lead.drop_last(), names) =~= Seq::<(Seq<char>, Seq<char>)>::empty());
    assert(names.contains(lead.last().0)) by {
        assert(names[0] == lead.last().0);
    }
    assert(without_names(lead, names) =~= Seq::<(Seq<char>, Seq<char>)>::empty());
    lemma_no_clash_no_project(plan.reserved, c.additional);
    lemma_without_absent_names(c.additional, names);
    lemma_tail_kept(key);
    assert(Seq::<(Seq<char>, Seq<char>)>::empty() + c.additional =~= c.additional);
}

/// Where no free form parameter clashes, an update-remote-config request's
/// query holds `validateOnly` where it was set, then the free form parameters
/// in order, then `alt=json`, then the API key.
pub proof fn lemma_update_query(c: UpdateCallView, key: Seq<char>)
    requires
        first_clash(update_plan(c).reserved, c.additional) is None,
    ensures
        query_params(update_plan(c), key) == (match c.validate_only {
            Some(b) => seq![("validateOnly"@, bool_text(b))],
            None => Seq::<(Seq<char>, Seq<char>)>::empty(),
        }) + c.additional + seq![("alt"@, "json"@), ("key"@, key)],
{
    reveal_strlit("validateOnly");
    reveal_strlit("project");
    let plan = update_plan(c);
    let names = seq!["project"@];
    let lead = plan.leading;
    let tail = seq![("alt"@, "json"@), ("key"@, key)];
    let head = seq![lead[0]];
    let opt = lead.subrange(1, lead.len() as int);
    assert(lead =~= head + opt);
    assert(request_params(plan, key) == ((head + opt) + c.additional) + tail);
    lemma_without_names_append((head + opt) + c.additional, tail, names);
    lemma_without_names_append(head + opt, c.additional, names);
    lemma_without_names_append(head, opt, names);
    assert(names.contains(head[0].0)) by {
        assert(names[0] == head[0].0);
    }
    assert(head.drop_last().len() == 0);
    assert(without_names(head.drop_last(), names) =~= Seq::<(Seq<char>, Seq<char>)>::empty());
    assert(names.contains(head.last().0)) by {
        assert(names[0] == head.last().0);
    }
    assert(without_names(head, names) =~= Seq::<(Seq<char>, Seq<char>)>::empty());
    assert forall|i: int| 0 <= i < opt.len() implies !names.contains(#[trigger] opt[i].0) by {
        if names.contains(opt[i].0) {
            assert(names[0] == opt[i].0);
            assert(opt[i].0.len() != "project"@.len());
        }
    }
    lemma_without_absent_names(opt, names);
    lemma_no_clash_no_project(plan.reserved, c.additional);
    lemma_without_absent_names(c.additional, names);
    lemma_tail_kept(key);
    let expected_opt = match c.validate_only {
        Some(b) => seq![("validateOnly"@, bool_text(b))],
        None => Seq::<(Seq<char>, Seq<char>)>::empty(),
    };
    assert(opt =~= expected_opt);
    assert(Seq::<(Seq<char>, Seq<char>)>::empty() + opt =~= opt);
}

} // verus!

verus! {

/// Setting a free form parameter twice on a get-remote-config call is setting it once, to the last value.
pub proof fn lemma_get_param_last_wins(c: GetCallView, name: Seq<char>, v1: Seq<char>, v2: Seq<char>)
    requires
        distinct_names(c.additional),
    ensures
        (GetCallView { additional: with_param(with_param(c.additional, name, v1), name, v2), ..c }) == (GetCallView {
            additional: with_param(c.additional, name, v2),
            ..c
        }),
{
    lemma_with_param_last_wins(c.additional, name, v1, v2);
}

/// Setting two different free form parameters on a get-remote-config call in
/// either order gives the same parameters with the same values; only the
/// order in which they are sent differs.
pub proof fn lemma_get_params_commute(c: GetCallView, n1: Seq<char>, v1: Seq<char>, n2: Seq<char>, v2: Seq<char>)
    requires
        distinct_names(c.additional),
        n1 != n2,
    ensures
        param_map(with_param(with_param(c.additional, n1, v1), n2, v2)) == param_map(
            with_param(with_param(c.additional, n2, v2), n1, v1),
        ),
{
    lemma_with_param_commutes(c.additional, n1, v1, n2, v2);
}

/// A free form parameter set on a get-remote-config call goes into the query
/// of its request, with its value, wherever the call does not fail on a clash.
pub proof fn lemma_get_param_reaches_query(c: GetCallView, name: Seq<char>, value: Seq<char>, key: Seq<char>)
    requires
        first_clash(
            get_plan(c).reserved,
            with_param(c.additional, name, value),
        ) is None,
    ensures
        query_params(get_plan(GetCallView { additional: with_param(c.additional, name, value), ..c }), key).contains(
            (name, value),
        ),
{
    let d = GetCallView { additional: with_param(c.additional, name, value), ..c };
    lemma_get_query(d, key);
    lemma_with_param_contains(c.additional, name, value);
    let i = choose|i: int| 0 <= i < d.additional.len() && d.additional[i] == (name, value);
    let q = query_params(get_plan(d), key);
    assert(q[i] == (name, value));
}

/// Setting a free form parameter twice on an update-remote-config call is setting it once, to the last value.
pub proof fn lemma_update_param_last_wins(c: UpdateCallView, name: Seq<char>, v1: Seq<char>, v2: Seq<char>)
    requires
        distinct_names(c.additional),
    ensures
        (UpdateCallView { additional: with_param(with_param(c.additional, name, v1), name, v2), ..c }) == (UpdateCallView {
            additional: with_param(c.additional, name, v2),
            ..c
        }),
{
    lemma_with_param_last_wins(c.additional, name, v1, v2);
}

/// Setting two different free form parameters on an update-remote-config call
/// in either order gives the same parameters with the same values; only the
/// order in which they are sent differs.
pub proof fn lemma_update_params_commute(c: UpdateCallView, n1: Seq<char>, v1: Seq<char>, n2: Seq<char>, v2: Seq<char>)
    requires
        distinct_names(c.additional),
        n1 != n2,
    ensures
        param_map(with_param(with_param(c.additional, n1, v1), n2, v2)) == param_map(
            with_param(with_param(c.additional, n2, v2), n1, v1),
        ),
{
    lemma_with_param_commutes(c.additional, n1, v1, n2, v2);
}

/// A free form parameter set on an update-remote-config call goes into the
/// query of its request, with its value, wherever the call does not fail on a clash.
pub proof fn lemma_update_param_reaches_query(c: UpdateCallView, name: Seq<char>, value: Seq<char>, key: Seq<char>)
    requires
        first_clash(
            update_plan(c).reserved,
            with_param(c.additional, name, value),
        ) is None,
    ensures
        query_params(update_plan(UpdateCallView { additional: with_param(c.additional, name, value), ..c }), key).contains(
            (name, value),
        ),
{
    let d = UpdateCallView { additional: with_param(c.additional, name, value), ..c };
    lemma_update_query(d, key);
    lemma_with_param_contains(c.additional, name, value);
    let i = choose|i: int| 0 <= i < d.additional.len() && d.additional[i] == (name, value);
    let pre = match d.validate_only {
        Some(b) => seq![("validateOnly"@, bool_text(b))],
        None => Seq::<(Seq<char>, Seq<char>)>::empty(),
    };
    let q = query_params(update_plan(d), key);
    assert(q[pre.len() + i] == (name, value));
}

} // verus!

verus! {

/// In a base URL without `{`, the placeholder of the path occurs once, just
/// after `v1/`, so that a value put in its place gives base URL, `v1/`, value
/// and `/remoteConfig`.
pub proof fn lemma_path_template(base: Seq<char>, value: Seq<char>)
    requires
        forall|k: int| 0 <= k < base.len() ==> base[k] != '{',
    ensures
        occurs_only_at(base + remote_config_path(), "{+project}"@, base.len() + 3int),
        (base + remote_config_path()).take(base.len() + 3int) + value + (base + remote_config_path()).skip(
            base.len() + 3int + "{+project}"@.len(),
        ) == base + "v1/"@ + value + "/remoteConfig"@,
{
    reveal_strlit("v1/{+project}/remoteConfig");
    reveal_strlit("{+project}");
    reveal_strlit("v1/");
    reveal_strlit("/remoteConfig");
    let t = base + remote_config_path();
    let pat = "{+project}"@;
    let i: int = base.len() + 3int;
    assert(t.subrange(i, i + pat.len()) =~= pat);
    assert forall|j: int| #[trigger] occurs_at(t, pat, j) implies j == i by {
        assert(t.subrange(j, j + pat.len())[0] == pat[0]);
        assert(t[j] == '{');
        if j < base.len() {
            assert(t[j] == base[j]);
        } else {
            let k = j - base.len();
            assert(t[j] == remote_config_path()[k]);
            assert(0 <= k < remote_config_path().len());
            assert(k == 3);
        }
    }
    assert(t.take(i) =~= base + "v1/"@);
    assert(t.skip(i + pat.len()) =~= "/remoteConfig"@);
    assert(t.take(i) + value + t.skip(i + pat.len()) =~= base + "v1/"@ + value + "/remoteConfig"@);
}

/// The project of a get-remote-config call is the value that its placeholder
/// takes, and where it is plain and the base URL has no `{`, the URL before
/// its query is base URL, `v1/`, project and `/remoteConfig`.
pub proof fn lemma_get_plain_path(c: GetCallView, key: Seq<char>)
    requires
        forall|k: int| 0 <= k < c.hub.base_url.len() ==> c.hub.base_url[k] != '{',
        is_plain_text(c.project),
        plain_substitution(get_plan(c), key),
    ensures
        substituted_url(get_plan(c), key) == c.hub.base_url + "v1/"@ + c.project + "/remoteConfig"@,
{
    let plan = get_plan(c);
    assert(request_params(plan, key)[0] == ("project"@, c.project));
    assert(first_value(request_params(plan, key), "project"@) == c.project);
    lemma_path_template(c.hub.base_url, c.project);
}

/// The same for an update-remote-config call.
pub proof fn lemma_update_plain_path(c: UpdateCallView, key: Seq<char>)
    requires
        forall|k: int| 0 <= k < c.hub.base_url.len() ==> c.hub.base_url[k] != '{',
        is_plain_text(c.project),
        plain_substitution(update_plan(c), key),
    ensures
        substituted_url(update_plan(c), key) == c.hub.base_url + "v1/"@ + c.project + "/remoteConfig"@,
{
    let plan = update_plan(c);
    assert(request_params(plan, key)[0] == ("project"@, c.project));
    assert(first_value(request_params(plan, key), "project"@) == c.project);
    lemma_path_template(c.hub.base_url, c.project);
}

} // verus!
