use vstd::prelude::*;
use vstd::string::StringExecFns;

verus! {

/// One translation request. The optional fields are semantically absent when
/// `None`: they never reach the outgoing form, not even as empty strings.
pub struct TranslationRequest {
    pub text: String,
    pub target_lang: String,
    pub source_lang: Option<String>,
    pub formality: Option<String>,
}

/// The ordered form fields that the request sends: always `text` and
/// `target_lang`, then `source_lang` and `formality` exactly when supplied.
pub open spec fn spec_form_fields(req: TranslationRequest) -> Seq<(Seq<char>, Seq<char>)> {
    seq![("text"@, req.text@), ("target_lang"@, req.target_lang@)] + (match req.source_lang {
        Some(s) => seq![("source_lang"@, s@)],
        None => Seq::empty(),
    }) + (match req.formality {
        Some(f) => seq![("formality"@, f@)],
        None => Seq::empty(),
    })
}

impl TranslationRequest {
    /// Builds the outgoing form as ordered name/value pairs.
    pub fn form_fields(&self) -> (r: Vec<(String, String)>)
        ensures
            r@.map_values(|p: (String, String)| (p.0@, p.1@)) == spec_form_fields(*self),
    {
        let mut r: Vec<(String, String)> = Vec::new();
        r.push(("text".to_owned(), self.text.clone()));
        r.push(("target_lang".to_owned(), self.target_lang.clone()));
        match &self.source_lang {
            Some(s) => r.push(("source_lang".to_owned(), s.clone())),
            None => (),
        }
        match &self.formality {
            Some(f) => r.push(("formality".to_owned(), f.clone())),
            None => (),
        }
        proof {
            assert(r@.map_values(|p: (String, String)| (p.0@, p.1@)) =~= spec_form_fields(
                *self,
            ));
        }
        r
    }
}

/// When neither optional field is supplied, the form holds exactly the two
/// required fields, and no `source_lang` or `formality` field at all.
pub proof fn lemma_optional_fields_omitted(req: TranslationRequest)
    requires
        req.source_lang is None,
        req.formality is None,
    ensures
        spec_form_fields(req) == seq![
            ("text"@, req.text@),
            ("target_lang"@, req.target_lang@),
        ],
        forall|i: int|
            0 <= i < spec_form_fields(req).len() ==> (#[trigger] spec_form_fields(req)[i]).0
                != "source_lang"@ && spec_form_fields(req)[i].0 != "formality"@,
{
    assert(spec_form_fields(req) =~= seq![
        ("text"@, req.text@),
        ("target_lang"@, req.target_lang@),
    ]);
    reveal_strlit("text");
    reveal_strlit("target_lang");
    reveal_strlit("source_lang");
    reveal_strlit("formality");
    assert("text"@.len() == 4 && "source_lang"@.len() == 11 && "formality"@.len() == 9);
    assert("target_lang"@[0] == 't' && "source_lang"@[0] == 's');
    assert("text"@ != "source_lang"@ && "text"@ != "formality"@);
    assert("target_lang"@ != "source_lang"@ && "target_lang"@ != "formality"@);
}

/// The value of the `Authorization` header: the fixed scheme prefix, then the
/// key. The key goes nowhere else.
pub open spec fn spec_auth_header(key: Seq<char>) -> Seq<char> {
    "DeepL-Auth-Key "@ + key
}

/// Formats the `Authorization` header value for the given key.
pub fn auth_header_value(key: &str) -> (r: String)
    ensures
        r@ == spec_auth_header(key@),
{
    let mut s = "DeepL-Auth-Key ".to_owned();
    s.append(key);
    s
}

} // verus!
