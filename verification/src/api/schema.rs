//! The resource types that the API sends and receives.

use std::collections::HashMap;
use vstd::prelude::*;

verus! {

/// While default_value and conditional_values are each optional, at least one of
/// the two is required - otherwise, the parameter is meaningless (and an
/// exception will be thrown by the validation logic).
///
/// This type is not used in any activity, and only used as *part* of another schema.
#[derive(Clone, Debug)]
pub struct RemoteConfigParameter {
    /// Optional - value to set the parameter to, when none of the named conditions
    /// evaluate to `true`.
    pub default_value: Option<RemoteConfigParameterValue>,
    /// Optional. A description for this Parameter. Length must be less than or
    /// equal to 100 characters (unicode code points).
    pub description: Option<String>,
    /// Optional - a map of (condition_name, value). The condition_name of the
    /// highest priority (the one listed first in the conditions array) determines
    /// the value of this parameter.
    pub conditional_values: Option<HashMap<String, RemoteConfigParameterValue>>,
}

/// A single RemoteConfig Condition. A list of these (because order matters) are
/// part of a single RemoteConfig template.
///
/// This type is not used in any activity, and only used as *part* of another schema.
#[derive(Clone, Debug)]
pub struct RemoteConfigCondition {
    /// Optional. The display (tag) color of this condition. It has no effect on
    /// the semantics of the delivered config.
    pub tag_color: Option<String>,
    /// Required. A non empty and unique name of this condition.
    pub name: Option<String>,
    /// Optional. A description for this Condition. Length must be less than or
    /// equal to 100 characters (unicode code points).
    pub description: Option<String>,
    /// Required.
    pub expression: Option<String>,
}

/// A RemoteConfigParameter's "value" (either the default value, or the value
/// associated with a condition name) is either a string, or the
/// "use_in_app_default" indicator (which means to leave out the parameter from
/// the returned (key, value) map that is the output of the parameter fetch).
/// The "use_in_app_default" is represented as a bool which, when used, should
/// always be `true`.
///
/// This type is not used in any activity, and only used as *part* of another schema.
#[derive(Clone, Debug)]
pub struct RemoteConfigParameterValue {
    /// the string to set the parameter to
    pub value: Option<String>,
    /// if true, omit the parameter from the map of fetched parameter values
    pub use_in_app_default: Option<bool>,
}

/// The RemoteConfig consists of a list of conditions (which can be thought of
/// as named "if" statements) and a map of parameters (parameter key to a
/// structure containing an optional default value, as well as a optional
/// submap of (condition name to value when that condition is true).
///
/// It is the response of the get-remote-config call and both the request and
/// the response of the update-remote-config call.
#[derive(Clone, Debug)]
pub struct RemoteConfig {
    /// Map of parameter keys to their optional default values and optional submap
    /// of (condition name : value). Order doesn't affect semantics, and so is
    /// sorted by the server. The 'key' values of the params must be unique.
    pub parameters: Option<HashMap<String, RemoteConfigParameter>>,
    /// The list of named conditions. The order *does* affect the semantics.
    /// The condition_name values of these entries must be unique.
    pub conditions: Option<Vec<RemoteConfigCondition>>,
}

impl Default for RemoteConfigParameter {
    fn default() -> (r: Self)
        ensures
            r.default_value is None,
            r.description is None,
            r.conditional_values is None,
    {
        RemoteConfigParameter { default_value: None, description: None, conditional_values: None }
    }
}

impl Default for RemoteConfigCondition {
    fn default() -> (r: Self)
        ensures
            r.tag_color is None,
            r.name is None,
            r.description is None,
            r.expression is None,
    {
        RemoteConfigCondition { tag_color: None, name: None, description: None, expression: None }
    }
}

impl Default for RemoteConfigParameterValue {
    fn default() -> (r: Self)
        ensures
            r.value is None,
            r.use_in_app_default is None,
    {
        RemoteConfigParameterValue { value: None, use_in_app_default: None }
    }
}

impl Default for RemoteConfig {
    fn default() -> (r: Self)
        ensures
            r.parameters is None,
            r.conditions is None,
    {
        RemoteConfig { parameters: None, conditions: None }
    }
}

} // verus!
