//! The relay's structured error, and the detail fields it carries.
//!
//! Details are a small self-describing record (key, value) rather than free-form
//! JSON, so contracts can say exactly which fields an error carries; the host
//! renders them as a JSON object.
use vstd::prelude::*;
use vstd::string::*;

use crate::configuration::{session_type_name, ConfigurationError, SessionType};

verus! {

/// One detail value.
#[derive(Debug)]
pub enum DetailValue {
    Null,
    Flag(bool),
    Number(u64),
    Text(String),
    Texts(Vec<String>),
}

/// One named detail field.
#[derive(Debug)]
pub struct Detail {
    pub key: String,
    pub value: DetailValue,
}

/// A structured relay error: a stable machine code, a human message, and
/// optional detail fields.
#[derive(Debug)]
pub struct RelayError {
    pub code: String,
    pub message: String,
    pub details: Option<Vec<Detail>>,
}

pub enum DetailValueView {
    Null,
    Flag(bool),
    Number(u64),
    Text(Seq<char>),
    Texts(Seq<Seq<char>>),
}

pub struct DetailView {
    pub key: Seq<char>,
    pub value: DetailValueView,
}

pub struct RelayErrorView {
    pub code: Seq<char>,
    pub message: Seq<char>,
    pub details: Option<Seq<DetailView>>,
}

impl View for DetailValue {
    type V = DetailValueView;

    open spec fn view(&self) -> DetailValueView {
        match self {
            DetailValue::Null => DetailValueView::Null,
            DetailValue::Flag(b) => DetailValueView::Flag(*b),
            DetailValue::Number(n) => DetailValueView::Number(*n),
            DetailValue::Text(s) => DetailValueView::Text(s@),
            DetailValue::Texts(v) => DetailValueView::Texts(v@.map_values(|s: String| s@)),
        }
    }
}

impl View for Detail {
    type V = DetailView;

    open spec fn view(&self) -> DetailView {
        DetailView { key: self.key@, value: self.value@ }
    }
}

pub open spec fn details_view(details: Option<Vec<Detail>>) -> Option<Seq<DetailView>> {
    match details {
        None => None,
        Some(v) => Some(v@.map_values(|d: Detail| d@)),
    }
}

impl View for RelayError {
    type V = RelayErrorView;

    open spec fn view(&self) -> RelayErrorView {
        RelayErrorView {
            code: self.code@,
            message: self.message@,
            details: details_view(self.details),
        }
    }
}

pub open spec fn text_detail(key: Seq<char>, value: Seq<char>) -> DetailView {
    DetailView { key, value: DetailValueView::Text(value) }
}

pub open spec fn number_detail(key: Seq<char>, value: u64) -> DetailView {
    DetailView { key, value: DetailValueView::Number(value) }
}

pub open spec fn flag_detail(key: Seq<char>, value: bool) -> DetailView {
    DetailView { key, value: DetailValueView::Flag(value) }
}

pub open spec fn error_view(
    code: Seq<char>,
    message: Seq<char>,
    details: Option<Seq<DetailView>>,
) -> RelayErrorView {
    RelayErrorView { code, message, details }
}

/// Builds a relay error.
pub fn relay_error(code: &str, message: &str, details: Option<Vec<Detail>>) -> (error: RelayError)
    ensures
        error@ == error_view(code@, message@, details_view(details)),
{
    RelayError { code: String::from_str(code), message: String::from_str(message), details }
}

/// A text detail field.
pub fn text_field(key: &str, value: &str) -> (detail: Detail)
    ensures
        detail@ == text_detail(key@, value@),
{
    Detail { key: String::from_str(key), value: DetailValue::Text(String::from_str(value)) }
}

/// A numeric detail field.
pub fn number_field(key: &str, value: u64) -> (detail: Detail)
    ensures
        detail@ == number_detail(key@, value),
{
    Detail { key: String::from_str(key), value: DetailValue::Number(value) }
}

/// A boolean detail field.
pub fn flag_field(key: &str, value: bool) -> (detail: Detail)
    ensures
        detail@ == flag_detail(key@, value),
{
    Detail { key: String::from_str(key), value: DetailValue::Flag(value) }
}

/// A detail list holding one field.
pub fn one_detail(detail: Detail) -> (details: Option<Vec<Detail>>)
    ensures
        details_view(details) == Some(seq![detail@]),
{
    let mut v: Vec<Detail> = Vec::new();
    v.push(detail);
    proof {
        assert(v@.map_values(|d: Detail| d@) =~= seq![detail@]);
    }
    Some(v)
}

/// A detail list holding two fields.
pub fn two_details(first: Detail, second: Detail) -> (details: Option<Vec<Detail>>)
    ensures
        details_view(details) == Some(seq![first@, second@]),
{
    let mut v: Vec<Detail> = Vec::new();
    v.push(first);
    v.push(second);
    proof {
        assert(v@.map_values(|d: Detail| d@) =~= seq![first@, second@]);
    }
    Some(v)
}

/// A detail list holding three fields.
pub fn three_details(first: Detail, second: Detail, third: Detail) -> (details: Option<
    Vec<Detail>,
>)
    ensures
        details_view(details) == Some(seq![first@, second@, third@]),
{
    let mut v: Vec<Detail> = Vec::new();
    v.push(first);
    v.push(second);
    v.push(third);
    proof {
        assert(v@.map_values(|d: Detail| d@) =~= seq![first@, second@, third@]);
    }
    Some(v)
}

/// A text detail field holding `value`.
pub fn owned_text_field(key: &str, value: String) -> (detail: Detail)
    ensures
        detail@ == text_detail(key@, value@),
{
    Detail { key: String::from_str(key), value: DetailValue::Text(value) }
}

/// The code an unreadable configuration layer keeps wherever it crosses a
/// boundary.
pub open spec fn unreadable_layer_code() -> Seq<char> {
    "validation_unreadable_configuration_layer"@
}

/// The error a bundle configuration failure is reported as.
pub open spec fn spec_map_config(error: ConfigurationError) -> RelayErrorView {
    match error {
        ConfigurationError::UnknownBundle { bundle_name, path } => error_view(
            "validation_unknown_bundle"@,
            "bundle is not configured"@,
            Some(seq![text_detail("bundle_name"@, bundle_name@), text_detail("path"@, path@)]),
        ),
        ConfigurationError::InvalidConfiguration { path, message } => error_view(
            "internal_unexpected_failure"@,
            "bundle configuration is invalid"@,
            Some(seq![text_detail("path"@, path@), text_detail("cause"@, message@)]),
        ),
        ConfigurationError::InvalidGroupName { path, group_name } => error_view(
            "validation_invalid_group_name"@,
            "bundle configuration uses invalid group name"@,
            Some(seq![text_detail("path"@, path@), text_detail("group_name"@, group_name@)]),
        ),
        ConfigurationError::ReservedGroupName { path, group_name } => error_view(
            "validation_reserved_group_name"@,
            "bundle configuration uses reserved group name"@,
            Some(seq![text_detail("path"@, path@), text_detail("group_name"@, group_name@)]),
        ),
        ConfigurationError::AmbiguousSender { working_directory, matches } => error_view(
            "validation_unknown_sender"@,
            "sender association is ambiguous"@,
            Some(
                seq![
                    text_detail("working_directory"@, working_directory@),
                    DetailView {
                        key: "matches"@,
                        value: DetailValueView::Texts(matches@.map_values(|m: String| m@)),
                    },
                ],
            ),
        ),
        ConfigurationError::UnreadableConfigurationLayer { path, cause } => error_view(
            unreadable_layer_code(),
            "configuration layer could not be read"@,
            Some(seq![text_detail("path"@, path@), text_detail("cause"@, cause@)]),
        ),
        ConfigurationError::Io { context, cause } => error_view(
            "internal_unexpected_failure"@,
            "bundle configuration could not be loaded"@,
            Some(seq![text_detail("context"@, context@), text_detail("cause"@, cause@)]),
        ),
    }
}

/// Maps a bundle configuration failure to the relay error reported for it.
pub fn map_config(error: ConfigurationError) -> (mapped: RelayError)
    ensures
        mapped@ == spec_map_config(error),
{
    match error {
        ConfigurationError::UnknownBundle { bundle_name, path } => relay_error(
            "validation_unknown_bundle",
            "bundle is not configured",
            two_details(
                owned_text_field("bundle_name", bundle_name),
                owned_text_field("path", path),
            ),
        ),
        ConfigurationError::InvalidConfiguration { path, message } => relay_error(
            "internal_unexpected_failure",
            "bundle configuration is invalid",
            two_details(owned_text_field("path", path), owned_text_field("cause", message)),
        ),
        ConfigurationError::InvalidGroupName { path, group_name } => relay_error(
            "validation_invalid_group_name",
            "bundle configuration uses invalid group name",
            two_details(
                owned_text_field("path", path),
                owned_text_field("group_name", group_name),
            ),
        ),
        ConfigurationError::ReservedGroupName { path, group_name } => relay_error(
            "validation_reserved_group_name",
            "bundle configuration uses reserved group name",
            two_details(
                owned_text_field("path", path),
                owned_text_field("group_name", group_name),
            ),
        ),
        ConfigurationError::AmbiguousSender { working_directory, matches } => relay_error(
            "validation_unknown_sender",
            "sender association is ambiguous",
            two_details(
                owned_text_field("working_directory", working_directory),
                Detail { key: String::from_str("matches"), value: DetailValue::Texts(matches) },
            ),
        ),
        ConfigurationError::UnreadableConfigurationLayer { path, cause } => relay_error(
            "validation_unreadable_configuration_layer",
            "configuration layer could not be read",
            two_details(owned_text_field("path", path), owned_text_field("cause", cause)),
        ),
        ConfigurationError::Io { context, cause } => relay_error(
            "internal_unexpected_failure",
            "bundle configuration could not be loaded",
            two_details(owned_text_field("context", context), owned_text_field("cause", cause)),
        ),
    }
}

/// The error a users configuration failure is reported as: its own invalid
/// and unreadable cases keep their detail, any other failure is reported by
/// its code alone.
pub open spec fn spec_map_tui_config(error: ConfigurationError) -> RelayErrorView {
    match error {
        ConfigurationError::InvalidConfiguration { path, message } => error_view(
            "validation_invalid_arguments"@,
            "tui configuration is invalid"@,
            Some(seq![text_detail("path"@, path@), text_detail("cause"@, message@)]),
        ),
        ConfigurationError::Io { context, cause } => error_view(
            "validation_invalid_arguments"@,
            "failed to load tui configuration"@,
            Some(seq![text_detail("context"@, context@), text_detail("cause"@, cause@)]),
        ),
        ConfigurationError::UnreadableConfigurationLayer { path, cause } => error_view(
            unreadable_layer_code(),
            "configuration layer could not be read"@,
            Some(seq![text_detail("path"@, path@), text_detail("cause"@, cause@)]),
        ),
        _ => error_view(
            "validation_invalid_arguments"@,
            "failed to load tui configuration"@,
            Some(seq![text_detail("cause"@, spec_map_config(error).code)]),
        ),
    }
}

/// Maps a users configuration failure to the relay error reported for it.
pub fn map_tui_config(error: ConfigurationError) -> (mapped: RelayError)
    ensures
        mapped@ == spec_map_tui_config(error),
{
    match error {
        ConfigurationError::InvalidConfiguration { path, message } => relay_error(
            "validation_invalid_arguments",
            "tui configuration is invalid",
            two_details(owned_text_field("path", path), owned_text_field("cause", message)),
        ),
        ConfigurationError::Io { context, cause } => relay_error(
            "validation_invalid_arguments",
            "failed to load tui configuration",
            two_details(owned_text_field("context", context), owned_text_field("cause", cause)),
        ),
        ConfigurationError::UnreadableConfigurationLayer { path, cause } => relay_error(
            "validation_unreadable_configuration_layer",
            "configuration layer could not be read",
            two_details(owned_text_field("path", path), owned_text_field("cause", cause)),
        ),
        other => {
            let code = map_config(other).code;
            relay_error(
                "validation_invalid_arguments",
                "failed to load tui configuration",
                one_detail(owned_text_field("cause", code)),
            )
        },
    }
}

/// Rejection for a resolved target whose transport lacks the capability the
/// operation needs; the failed capability is reported as a `false` detail.
pub fn unsupported_operation(
    target_session: &str,
    session_type: SessionType,
    capability_flag: &str,
) -> (error: RelayError)
    ensures
        error@ == error_view(
            "validation_unsupported_operation"@,
            "target transport does not support this operation"@,
            Some(
                seq![
                    text_detail("target_session"@, target_session@),
                    text_detail("session_type"@, session_type_name(session_type)),
                    flag_detail(capability_flag@, false),
                ],
            ),
        ),
{
    relay_error(
        "validation_unsupported_operation",
        "target transport does not support this operation",
        three_details(
            text_field("target_session", target_session),
            text_field("session_type", session_type.as_str()),
            flag_field(capability_flag, false),
        ),
    )
}

/// The error for a session whose declared type has no delivery path yet.
pub fn session_type_not_implemented(session_id: &str, session_type: SessionType) -> (error:
    RelayError)
    ensures
        error@ == error_view(
            "runtime_session_type_not_implemented"@,
            "session type delivery is not yet implemented"@,
            Some(
                seq![
                    text_detail("session_id"@, session_id@),
                    text_detail("session_type"@, session_type_name(session_type)),
                ],
            ),
        ),
{
    relay_error(
        "runtime_session_type_not_implemented",
        "session type delivery is not yet implemented",
        two_details(
            text_field("session_id", session_id),
            text_field("session_type", session_type.as_str()),
        ),
    )
}

/// The error reported when the operating system's random source fails to
/// provide a fresh identifier.
pub open spec fn spec_random_source_failed() -> RelayErrorView {
    error_view(
        "internal_unexpected_failure"@,
        "the operating system's random source failed to provide an identifier"@,
        None,
    )
}

/// The error reported when the operating system's random source fails to
/// provide a fresh identifier.
pub fn random_source_failed() -> (error: RelayError)
    ensures
        error@ == spec_random_source_failed(),
{
    relay_error(
        "internal_unexpected_failure",
        "the operating system's random source failed to provide an identifier",
        None,
    )
}

} // verus!
