use vstd::prelude::*;
use vstd::string::StringExecFns;

use crate::request::TranslationRequest;

verus! {

/// Whether output is formatted for a person at a terminal or for a pipe.
#[derive(Clone, Copy, PartialEq, Eq, Structural, Debug)]
pub enum DisplayMode {
    Human,
    Raw,
}

/// How many positional values (program name included) an invocation needs:
/// interactively the text and the target language follow the program name;
/// with redirected input only the target language does.
pub open spec fn spec_required_argc(interactive: bool) -> int {
    if interactive {
        3
    } else {
        2
    }
}

/// True exactly when the argument vector is long enough for the mode.
pub fn enough_args(argc: usize, interactive: bool) -> (r: bool)
    ensures
        r <==> argc >= spec_required_argc(interactive),
{
    if interactive {
        argc >= 3
    } else {
        argc >= 2
    }
}

/// The usage line shown when too few arguments are given: the fixed prefix,
/// the program's own name, then the positional arguments of the mode.
pub open spec fn spec_usage(prog: Seq<char>, interactive: bool) -> Seq<char> {
    "Not enough argument, usage: "@ + prog + (if interactive {
        " TEXT TARGET_LANG [SOURCE_LANG] [more/less (FORMALITY)]"@
    } else {
        " TARGET_LANG [SOURCE_LANG] [more/less (FORMALITY)]"@
    })
}

/// Formats the usage line for the mode.
pub fn usage_message(prog: &str, interactive: bool) -> (r: String)
    ensures
        r@ == spec_usage(prog@, interactive),
{
    let mut s = "Not enough argument, usage: ".to_owned();
    s.append(prog);
    if interactive {
        s.append(" TEXT TARGET_LANG [SOURCE_LANG] [more/less (FORMALITY)]");
    } else {
        s.append(" TARGET_LANG [SOURCE_LANG] [more/less (FORMALITY)]");
    }
    s
}

/// Interactive invocation: the text and the target language are positional,
/// the source language and the formality may follow; output is for a person.
pub fn resolve_interactive(args: &Vec<String>) -> (r: (TranslationRequest, DisplayMode))
    requires
        args@.len() >= spec_required_argc(true),
    ensures
        r.1 == DisplayMode::Human,
        r.0.text@ == args@[1]@,
        r.0.target_lang@ == args@[2]@,
        args@.len() > 3 ==> (r.0.source_lang matches Some(s) && s@ == args@[3]@),
        args@.len() <= 3 ==> r.0.source_lang is None,
        args@.len() > 4 ==> (r.0.formality matches Some(f) && f@ == args@[4]@),
        args@.len() <= 4 ==> r.0.formality is None,
{
    let req = TranslationRequest {
        text: args[1].clone(),
        target_lang: args[2].clone(),
        source_lang: if args.len() > 3 {
            Some(args[3].clone())
        } else {
            None
        },
        formality: if args.len() > 4 {
            Some(args[4].clone())
        } else {
            None
        },
    };
    (req, DisplayMode::Human)
}

/// Piped invocation: the text was read from redirected standard input and is
/// taken as given, even empty; only the target language is a required
/// positional; output is raw.
pub fn resolve_piped(args: &Vec<String>, piped_text: String) -> (r: (
    TranslationRequest,
    DisplayMode,
))
    requires
        args@.len() >= spec_required_argc(false),
    ensures
        r.1 == DisplayMode::Raw,
        r.0.text@ == piped_text@,
        r.0.target_lang@ == args@[1]@,
        args@.len() > 2 ==> (r.0.source_lang matches Some(s) && s@ == args@[2]@),
        args@.len() <= 2 ==> r.0.source_lang is None,
        args@.len() > 3 ==> (r.0.formality matches Some(f) && f@ == args@[3]@),
        args@.len() <= 3 ==> r.0.formality is None,
{
    let req = TranslationRequest {
        text: piped_text,
        target_lang: args[1].clone(),
        source_lang: if args.len() > 2 {
            Some(args[2].clone())
        } else {
            None
        },
        formality: if args.len() > 3 {
            Some(args[3].clone())
        } else {
            None
        },
    };
    (req, DisplayMode::Raw)
}

} // verus!
