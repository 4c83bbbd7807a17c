use vstd::prelude::*;
use vstd::string::StringExecFns;

use crate::args::DisplayMode;
use crate::errors::TranslateError;
use crate::json::JsonRep;
use crate::json::json_as_array;
use crate::json::json_as_str;
use crate::json::json_from_str;
use crate::json::json_get;
use crate::json::json_rep;
use crate::json::json_rep_of;

verus! {

/// One translated segment as the remote service reports it.
pub struct Translation {
    pub text: String,
    pub detected_source_language: String,
}

impl View for Translation {
    type V = (Seq<char>, Seq<char>);

    open spec fn view(&self) -> (Seq<char>, Seq<char>) {
        (self.text@, self.detected_source_language@)
    }
}

/// The segment that one entry of the response array holds: an object with
/// string members `text` and `detected_source_language`, else nothing.
pub open spec fn spec_entry(j: JsonRep) -> Option<(Seq<char>, Seq<char>)> {
    match j {
        JsonRep::Obj(m) => if m.contains_key("text"@) && m.contains_key(
            "detected_source_language"@,
        ) {
            match (m["text"@], m["detected_source_language"@]) {
                (JsonRep::Str(t), JsonRep::Str(d)) => Some((t, d)),
                _ => None,
            }
        } else {
            None
        },
        _ => None,
    }
}

/// The segments of the whole response array, in the array's order: defined
/// only when every entry has the expected shape.
pub open spec fn spec_entries(items: Seq<JsonRep>) -> Option<Seq<(Seq<char>, Seq<char>)>> {
    if forall|k: int| 0 <= k < items.len() ==> (#[trigger] spec_entry(items[k])) is Some {
        Some(items.map_values(|j: JsonRep| spec_entry(j)->Some_0))
    } else {
        None
    }
}

/// The segments of a whole response value: an object whose `translations`
/// member is an array of well-shaped entries, else nothing.
pub open spec fn spec_answer(j: JsonRep) -> Option<Seq<(Seq<char>, Seq<char>)>> {
    match j {
        JsonRep::Obj(m) => if m.contains_key("translations"@) {
            match m["translations"@] {
                JsonRep::Arr(items) => spec_entries(items),
                _ => None,
            }
        } else {
            None
        },
        _ => None,
    }
}

/// The segments that a response body text yields, if it is a valid document
/// of the expected shape.
pub open spec fn spec_parsed_answer(body: Seq<char>) -> Option<Seq<(Seq<char>, Seq<char>)>> {
    match json_rep_of(body) {
        Some(j) => spec_answer(j),
        None => None,
    }
}

/// Parses a success response body into its translated segments, in response
/// order. Returns a parse error exactly where the body is not a valid
/// document of the expected shape.
pub fn parse_answer(body: &str) -> (r: Result<Vec<Translation>, TranslateError>)
    ensures
        r is Ok <==> spec_parsed_answer(body@) is Some,
        r is Ok ==> r->Ok_0@.map_values(|t: Translation| t@) == spec_parsed_answer(
            body@,
        )->Some_0,
        r is Err ==> r->Err_0 is ResponseParseError,
{
    let v = match json_from_str(body) {
        Ok(v) => v,
        Err(d) => {
            return Err(TranslateError::ResponseParseError(d));
        },
    };
    let arr_val = match json_get(&v, "translations") {
        Some(a) => a,
        None => {
            return Err(
                TranslateError::ResponseParseError("expected a translations member".to_owned()),
            );
        },
    };
    let items = match json_as_array(arr_val) {
        Some(i) => i,
        None => {
            return Err(
                TranslateError::ResponseParseError("translations is not an array".to_owned()),
            );
        },
    };
    let ghost reps = items@.map_values(|x: serde_json::Value| json_rep(x));
    proof {
        assert(spec_parsed_answer(body@) == spec_entries(reps));
    }
    let mut out: Vec<Translation> = Vec::new();
    let mut i: usize = 0;
    while i < items.len()
        invariant
            i <= items.len(),
            reps == items@.map_values(|x: serde_json::Value| json_rep(x)),
            reps.len() == items@.len(),
            spec_parsed_answer(body@) == spec_entries(reps),
            out@.len() == i,
            forall|k: int|
                0 <= k < i ==> (#[trigger] spec_entry(reps[k])) is Some && out@[k]@ == spec_entry(
                    reps[k],
                )->Some_0,
        decreases items.len() - i,
    {
        let item = &items[i];
        proof {
            assert(json_rep(items@[i as int]) == reps[i as int]);
        }
        let t_val = match json_get(item, "text") {
            Some(t) => t,
            None => {
                assert(spec_entry(reps[i as int]) is None);
                return Err(
                    TranslateError::ResponseParseError("entry without a text member".to_owned()),
                );
            },
        };
        let t_str = match json_as_str(t_val) {
            Some(s) => s,
            None => {
                assert(spec_entry(reps[i as int]) is None);
                return Err(
                    TranslateError::ResponseParseError("entry text is not a string".to_owned()),
                );
            },
        };
        let d_val = match json_get(item, "detected_source_language") {
            Some(d) => d,
            None => {
                assert(spec_entry(reps[i as int]) is None);
                return Err(
                    TranslateError::ResponseParseError(
                        "entry without a detected_source_language member".to_owned(),
                    ),
                );
            },
        };
        let d_str = match json_as_str(d_val) {
            Some(s) => s,
            None => {
                assert(spec_entry(reps[i as int]) is None);
                return Err(
                    TranslateError::ResponseParseError(
                        "entry detected_source_language is not a string".to_owned(),
                    ),
                );
            },
        };
        out.push(
            Translation {
                text: t_str.to_owned(),
                detected_source_language: d_str.to_owned(),
            },
        );
        i += 1;
    }
    proof {
        assert(spec_entries(reps) is Some);
        assert(out@.map_values(|t: Translation| t@) =~= spec_entries(reps)->Some_0);
    }
    Ok(out)
}

/// What one segment prints as: annotated with the detected source language
/// and a line break for a person, the bare text for a pipe.
pub open spec fn spec_rendered_one(t: (Seq<char>, Seq<char>), mode: DisplayMode) -> Seq<char> {
    match mode {
        DisplayMode::Human => t.0 + " (from "@ + t.1 + ")\n"@,
        DisplayMode::Raw => t.0,
    }
}

/// What a whole answer prints as: each segment's rendering, one after the
/// other, in the answer's order.
pub open spec fn spec_rendered(ts: Seq<(Seq<char>, Seq<char>)>, mode: DisplayMode) -> Seq<char>
    decreases ts.len(),
{
    if ts.len() == 0 {
        Seq::empty()
    } else {
        spec_rendered(ts.drop_last(), mode) + spec_rendered_one(ts.last(), mode)
    }
}

/// Rendering keeps the answer's order and drops nothing: what two answers
/// render to in sequence is the rendering of the first followed by the
/// rendering of the second.
pub proof fn lemma_rendered_append(
    a: Seq<(Seq<char>, Seq<char>)>,
    b: Seq<(Seq<char>, Seq<char>)>,
    mode: DisplayMode,
)
    ensures
        spec_rendered(a + b, mode) == spec_rendered(a, mode) + spec_rendered(b, mode),
    decreases b.len(),
{
    if b.len() == 0 {
        assert(a + b =~= a);
        assert(spec_rendered(a, mode) + spec_rendered(b, mode) =~= spec_rendered(a, mode));
    } else {
        lemma_rendered_append(a, b.drop_last(), mode);
        assert((a + b).drop_last() =~= a + b.drop_last());
        assert(spec_rendered(a, mode) + (spec_rendered(b.drop_last(), mode) + spec_rendered_one(
            b.last(),
            mode,
        )) =~= (spec_rendered(a, mode) + spec_rendered(b.drop_last(), mode)) + spec_rendered_one(
            b.last(),
            mode,
        ));
    }
}

/// Renders the translated segments for the display mode, in their order.
pub fn render(ts: &Vec<Translation>, mode: DisplayMode) -> (r: String)
    ensures
        r@ == spec_rendered(ts@.map_values(|t: Translation| t@), mode),
{
    let ghost views = ts@.map_values(|t: Translation| t@);
    let mut out = String::new();
    let mut i: usize = 0;
    while i < ts.len()
        invariant
            i <= ts.len(),
            views == ts@.map_values(|t: Translation| t@),
            views.len() == ts@.len(),
            out@ == spec_rendered(views.take(i as int), mode),
        decreases ts.len() - i,
    {
        let t = &ts[i];
        match mode {
            DisplayMode::Human => {
                out.append(t.text.as_str());
                out.append(" (from ");
                out.append(t.detected_source_language.as_str());
                out.append(")\n");
            },
            DisplayMode::Raw => {
                out.append(t.text.as_str());
            },
        }
        proof {
            assert(views.take(i + 1).drop_last() =~= views.take(i as int));
            assert(views.take(i + 1).last() == views[i as int]);
            assert(out@ =~= spec_rendered(views.take(i + 1), mode));
        }
        i += 1;
    }
    proof {
        assert(views.take(ts@.len() as int) =~= views);
    }
    out
}

/// Whether an HTTP status code reports success.
pub open spec fn spec_status_success(status: u16) -> bool {
    200 <= status < 300
}

/// True exactly on the success status codes.
pub fn status_success(status: u16) -> (r: bool)
    ensures
        r == spec_status_success(status),
{
    200 <= status && status < 300
}

/// Interprets one HTTP exchange's outcome. A non-success status is a remote
/// error carrying the response body verbatim. A success status yields the
/// rendered translation exactly when the body parses to the expected shape,
/// and a parse error otherwise.
pub fn handle_response(status: u16, body: &str, mode: DisplayMode) -> (r: Result<
    String,
    TranslateError,
>)
    ensures
        !spec_status_success(status) ==> r is Err && r->Err_0 is RemoteError
            && r->Err_0->RemoteError_0@ == body@,
        spec_status_success(status) ==> {
            &&& r is Ok <==> spec_parsed_answer(body@) is Some
            &&& r is Ok ==> r->Ok_0@ == spec_rendered(spec_parsed_answer(body@)->Some_0, mode)
            &&& r is Err ==> r->Err_0 is ResponseParseError
        },
{
    if !status_success(status) {
        return Err(TranslateError::RemoteError(body.to_owned()));
    }
    match parse_answer(body) {
        Ok(ts) => Ok(render(&ts, mode)),
        Err(e) => Err(e),
    }
}

} // verus!
