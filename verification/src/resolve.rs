//! From options and a configuration file to the configuration of the
//! service.
//!
//! Where the options name a configuration file, the file takes the place of
//! all of them: nothing given on the command line survives beside it, and no
//! option is merged field by field.

use crate::config::{apply_defaults, settled, ResolvedConfig, ResolvedConfigView, ServeArgs, ServeArgsView};
use crate::document::{decode_options, decoded, document};
use crate::error::ControlError;
use crate::text::{content_view, decode_text, text_of};
use vstd::prelude::*;

verus! {

/// The configuration that the content of a configuration file settles to.
/// `None` stands for a file that could not be read.
pub open spec fn resolved_from_file(file: Option<Seq<u8>>) -> Result<
    ResolvedConfigView,
    ControlError,
> {
    match file {
        None => Err(ControlError::ConfigIO),
        Some(bytes) => match text_of(bytes) {
            None => Err(ControlError::ConfigDecode),
            Some(text) => match decoded(document(text)) {
                Ok(options) => Ok(settled(options)),
                Err(e) => Err(e),
            },
        },
    }
}

/// The configuration that `args` settle to, where `file` is what reading the
/// configuration file that they name gave.
pub open spec fn resolved(args: ServeArgsView, file: Option<Seq<u8>>) -> Result<
    ResolvedConfigView,
    ControlError,
> {
    if args.config is Some {
        resolved_from_file(file)
    } else {
        Ok(settled(args))
    }
}

/// The view of a resolution result.
pub open spec fn resolution_view(r: Result<ResolvedConfig, ControlError>) -> Result<
    ResolvedConfigView,
    ControlError,
> {
    match r {
        Ok(config) => Ok(config@),
        Err(e) => Err(e),
    }
}

/// A configuration file replaces the options wholly: two sets of options that
/// both name a configuration file resolve alike on the same file content,
/// whatever else they hold.
pub proof fn law_file_replaces_options(
    first: ServeArgsView,
    second: ServeArgsView,
    file: Option<Seq<u8>>,
)
    requires
        first.config is Some,
        second.config is Some,
    ensures
        resolved(first, file) == resolved(second, file),
        resolved(first, file) == resolved_from_file(file),
{
}

/// What a configuration file sets is what comes out, whatever the options
/// beside it say: its port, where it sets one, is the port of the
/// configuration, and so for every other key.
pub proof fn law_file_values_win(
    args: ServeArgsView,
    bytes: Seq<u8>,
    text: Seq<char>,
    options: ServeArgsView,
)
    requires
        args.config is Some,
        text_of(bytes) == Some(text),
        decoded(document(text)) == Ok::<ServeArgsView, ControlError>(options),
    ensures
        resolved(args, Some(bytes)) == Ok::<ResolvedConfigView, ControlError>(settled(options)),
        options.port matches Some(port) ==> settled(options).port == port,
{
}

/// Settles the options that a configuration file holds.
///
/// `file` is the content of the file, or `None` where it could not be read.
/// Fails with `ConfigIO` for a file that could not be read, and with
/// `ConfigDecode` for content that is not UTF-8, not a TOML document, or
/// holds a value of the wrong shape under a known key.
pub fn resolve_from_file(file: Option<Vec<u8>>) -> (config: Result<ResolvedConfig, ControlError>)
    ensures
        resolution_view(config) == resolved_from_file(content_view(file)),
{
    match file {
        None => Err(ControlError::ConfigIO),
        Some(bytes) => match decode_text(bytes) {
            None => Err(ControlError::ConfigDecode),
            Some(text) => match decode_options(text.as_str()) {
                Ok(options) => Ok(apply_defaults(options)),
                Err(e) => Err(e),
            },
        },
    }
}

/// Settles the options.
///
/// Where `args` name no configuration file, they settle by themselves and
/// `file` is not looked at. Where they name one, `file` is what reading it
/// gave, and it alone decides the result, as [`resolve_from_file`] says.
pub fn resolve(args: ServeArgs, file: Option<Vec<u8>>) -> (config: Result<
    ResolvedConfig,
    ControlError,
>)
    ensures
        resolution_view(config) == resolved(args@, content_view(file)),
{
    if args.config.is_some() {
        resolve_from_file(file)
    } else {
        Ok(apply_defaults(args))
    }
}

} // verus!
