//! The generation client's computational core: deterministic prompt
//! construction, markdown fence stripping, and parsing of the generation
//! service's payload into a file-path-to-content mapping.

use vstd::prelude::*;
use crate::jsonfmt::{append_json_quoted, json_quoted};
use crate::text::{has_prefix, has_suffix, str_eq, trim_str, trimmed};

verus! {

/// The fixed system directive that precedes every user prompt handed to the
/// generation service.
pub open spec fn spec_system_directive() -> Seq<char> {
    "You are an expert platform engineer. Given an OAM Application spec, generate a minimal yet production-ready IaC project for the requested tool and provider. You are allowed to choose the file/folder structure dynamically. Output a JSON mapping of file paths to file contents. Only include files that are necessary to deploy the described resources. Prefer least-privilege, tags/labels, and outputs. CRITICAL: Do NOT create separate variables.tf or outputs.tf files if variables/outputs are already defined in main.tf. Avoid duplicate declarations - use either main.tf only OR separate files, not both."@
}

/// The system directive as a string.
pub fn system_directive() -> (r: &'static str)
    ensures
        r@ == spec_system_directive(),
{
    "You are an expert platform engineer. Given an OAM Application spec, generate a minimal yet production-ready IaC project for the requested tool and provider. You are allowed to choose the file/folder structure dynamically. Output a JSON mapping of file paths to file contents. Only include files that are necessary to deploy the described resources. Prefer least-privilege, tags/labels, and outputs. CRITICAL: Do NOT create separate variables.tf or outputs.tf files if variables/outputs are already defined in main.tf. Avoid duplicate declarations - use either main.tf only OR separate files, not both."
}

/// The JSON array body listing the tool-specific requirements: script-style
/// requirements when the tool is the direct deployment script one, and
/// init/plan/apply/destroy project requirements otherwise.
pub open spec fn spec_requirements_items(tool: Seq<char>) -> Seq<char> {
    if tool == "gcloud"@ {
        "\"Generate a complete and runnable shell script named 'deploy.sh' that uses gcloud commands to deploy the application described in the OAM specification.\",\"The script must not be a template. It should be a fully functional script that can be executed directly.\",\"Use the component name from the OAM spec as the service name.\",\"Use the image from the OAM spec as the container image.\",\"Expose environment variables for key parameters like region and project.\""@
    } else {
        "\"Project must be runnable by 'init/plan/apply/destroy' for the given tool.\",\"Include backend/state config if required; default to local if unspecified.\",\"Expose variables/inputs for key parameters (region, project, name, image, scaling, env).\""@
    }
}

/// The full generation prompt: one compact JSON object holding the
/// instructions (provider, requirements, tool), the raw spec content, and the
/// output schema describing a file-path-to-content object; keys in each
/// object stand alphabetically.
pub open spec fn spec_prompt(oam_yaml: Seq<char>, provider: Seq<char>, tool: Seq<char>) -> Seq<
    char,
> {
    "{\"instructions\":{\"provider\":"@ + json_quoted(provider) + ",\"requirements\":["@
        + spec_requirements_items(tool) + "],\"tool\":"@ + json_quoted(tool) + "},\"oam\":"@
        + json_quoted(oam_yaml)
        + ",\"output_format\":{\"schema\":{\"files\":{\"additionalProperties\":{\"type\":\"string\"},\"description\":\"A map of file paths to their string content.\",\"type\":\"object\"}},\"type\":\"json_object\"}}"@
}

/// Builds the generation prompt for the given spec content, provider and
/// tool. Pure: identical inputs always yield the identical prompt.
pub fn build_prompt(oam_yaml: &str, provider: &str, tool: &str) -> (r: String)
    ensures
        r@ == spec_prompt(oam_yaml@, provider@, tool@),
{
    let mut out = String::new();
    out.append("{\"instructions\":{\"provider\":");
    append_json_quoted(&mut out, provider);
    out.append(",\"requirements\":[");
    if str_eq(tool, "gcloud") {
        out.append(
            "\"Generate a complete and runnable shell script named 'deploy.sh' that uses gcloud commands to deploy the application described in the OAM specification.\",\"The script must not be a template. It should be a fully functional script that can be executed directly.\",\"Use the component name from the OAM spec as the service name.\",\"Use the image from the OAM spec as the container image.\",\"Expose environment variables for key parameters like region and project.\"",
        );
    } else {
        out.append(
            "\"Project must be runnable by 'init/plan/apply/destroy' for the given tool.\",\"Include backend/state config if required; default to local if unspecified.\",\"Expose variables/inputs for key parameters (region, project, name, image, scaling, env).\"",
        );
    }
    out.append("],\"tool\":");
    append_json_quoted(&mut out, tool);
    out.append("},\"oam\":");
    append_json_quoted(&mut out, oam_yaml);
    out.append(
        ",\"output_format\":{\"schema\":{\"files\":{\"additionalProperties\":{\"type\":\"string\"},\"description\":\"A map of file paths to their string content.\",\"type\":\"object\"}},\"type\":\"json_object\"}}",
    );
    proof {
        assert(out@ =~= spec_prompt(oam_yaml@, provider@, tool@));
    }
    out
}

/// Prompt determinism: the prompt is a function of the spec content, provider
/// and tool alone, so two constructions from identical inputs are identical.
pub proof fn lemma_prompt_deterministic(
    oam1: Seq<char>,
    provider1: Seq<char>,
    tool1: Seq<char>,
    oam2: Seq<char>,
    provider2: Seq<char>,
    tool2: Seq<char>,
)
    requires
        oam1 == oam2,
        provider1 == provider2,
        tool1 == tool2,
    ensures
        spec_prompt(oam1, provider1, tool1) == spec_prompt(oam2, provider2, tool2),
{
}

/// The requirements text sent to the generation service: the fixed system
/// directive, a blank line, a marker, and the user prompt.
pub open spec fn spec_combined_requirements(prompt: Seq<char>) -> Seq<char> {
    spec_system_directive() + "\n\nUser Prompt:\n"@ + prompt
}

/// Combines the system directive with the user prompt into the requirements
/// text of one service request.
pub fn combine_requirements(prompt: &str) -> (r: String)
    ensures
        r@ == spec_combined_requirements(prompt@),
{
    let mut out = String::new();
    out.append(system_directive());
    out.append("\n\nUser Prompt:\n");
    out.append(prompt);
    proof {
        assert(out@ =~= spec_combined_requirements(prompt@));
    }
    out
}

/// The payload after removal of a markdown code fence: the trimmed payload
/// loses a leading fence opener and a trailing fence closer where present
/// (falling back to the original payload where a side is absent), and the
/// outcome is trimmed again.
pub open spec fn strip_fence(code: Seq<char>) -> Seq<char> {
    let a = trimmed(code);
    let b = if a.len() >= "```json"@.len() && a.take("```json"@.len() as int) == "```json"@ {
        a.skip("```json"@.len() as int)
    } else {
        code
    };
    let c = if b.len() >= "```"@.len() && b.skip(b.len() - "```"@.len()) == "```"@ {
        b.take(b.len() - "```"@.len())
    } else {
        code
    };
    trimmed(c)
}

/// Removes a markdown code fence wrapped around the service's payload, where
/// one is present.
pub fn strip_code_fence(code: &str) -> (r: String)
    ensures
        r@ == strip_fence(code@),
{
    proof {
        reveal_strlit("```json");
        reveal_strlit("```");
    }
    let a = trim_str(code);
    let b: &str = if has_prefix(a, "```json") {
        let n = a.unicode_len();
        let s = a.substring_char(7, n);
        proof {
            assert(s@ =~= a@.skip(7));
        }
        s
    } else {
        code
    };
    let c: &str = if has_suffix(b, "```") {
        let n = b.unicode_len();
        let s = b.substring_char(0, n - 3);
        proof {
            assert(s@ =~= b@.take(b@.len() - 3));
        }
        s
    } else {
        code
    };
    let d = trim_str(c);
    String::from_str(d)
}

/// The mapping from relative file path to file content produced by one
/// generation call. Produced once, never mutated afterwards; keys are unique.
#[derive(Debug)]
pub struct GeneratedFiles {
    pub files: Vec<(String, String)>,
}

impl GeneratedFiles {
    /// The path-to-content pairs as mathematical sequences.
    pub open spec fn pairs(self) -> Seq<(Seq<char>, Seq<char>)> {
        self.files@.map_values(|p: (String, String)| (p.0@, p.1@))
    }

    /// Well-formed: no path occurs twice.
    pub open spec fn wf(self) -> bool {
        forall|i: int, j: int|
            0 <= i < j < self.pairs().len() ==> self.pairs()[i].0 != self.pairs()[j].0
    }

    /// The first generated path that would escape the scratch workspace, if
    /// any: an empty or absolute path, or one with a `..` component. Every
    /// entry must resolve strictly inside the workspace root before it is
    /// written; a caller materializing the set rejects the whole set on such
    /// a path.
    pub fn first_unsafe_path(&self) -> (r: Option<&String>)
        ensures
            match r {
                Some(p) => exists|i: int|
                    0 <= i < self.pairs().len() && self.pairs()[i].0 == p@
                        && !crate::text::is_safe_rel_path(p@) && (forall|k: int|
                        0 <= k < i ==> crate::text::is_safe_rel_path(self.pairs()[k].0)),
                None => forall|i: int|
                    0 <= i < self.pairs().len() ==> crate::text::is_safe_rel_path(
                        self.pairs()[i].0,
                    ),
            },
    {
        let n = self.files.len();
        let mut i: usize = 0;
        while i < n
            invariant
                n == self.files@.len(),
                i <= n,
                forall|k: int| 0 <= k < i ==> crate::text::is_safe_rel_path(self.pairs()[k].0),
            decreases n - i,
        {
            if !crate::text::check_safe_rel_path(self.files[i].0.as_str()) {
                proof {
                    assert(self.pairs()[i as int].0 == self.files@[i as int].0@);
                }
                return Some(&self.files[i].0);
            }
            proof {
                assert(self.pairs()[i as int].0 == self.files@[i as int].0@);
            }
            i = i + 1;
        }
        None
    }

    /// Looks a generated file up by its relative path.
    pub fn get_file(&self, name: &str) -> (r: Option<&String>)
        ensures
            match r {
                Some(v) => exists|i: int|
                    0 <= i < self.pairs().len() && self.pairs()[i] == (name@, v@),
                None => forall|i: int|
                    0 <= i < self.pairs().len() ==> self.pairs()[i].0 != name@,
            },
    {
        let n = self.files.len();
        let mut i: usize = 0;
        while i < n
            invariant
                n == self.files@.len(),
                i <= n,
                forall|k: int| 0 <= k < i ==> self.pairs()[k].0 != name@,
            decreases n - i,
        {
            if str_eq(self.files[i].0.as_str(), name) {
                proof {
                    assert(self.pairs()[i as int] == (
                        self.files@[i as int].0@,
                        self.files@[i as int].1@,
                    ));
                }
                return Some(&self.files[i].1);
            }
            i = i + 1;
        }
        None
    }
}

/// A payload wrapped in a markdown code fence.
pub open spec fn fence_wrapped(s: Seq<char>) -> Seq<char> {
    "```json"@ + s + "```"@
}

/// Fence stripping: a payload wrapped in a code fence strips to the same
/// text as the payload itself, so the two parse identically. The payload must
/// not itself look fenced: its trimmed form must not open with a fence and
/// the payload must not end with one (on such payloads the stripper would
/// take the fence apart).
pub proof fn lemma_fence_wrap_strips_same(s: Seq<char>)
    requires
        !(trimmed(s).len() >= "```json"@.len() && trimmed(s).take("```json"@.len() as int)
            == "```json"@),
        !(s.len() >= "```"@.len() && s.skip(s.len() - "```"@.len()) == "```"@),
    ensures
        strip_fence(fence_wrapped(s)) == trimmed(s),
        strip_fence(s) == trimmed(s),
{
    reveal_strlit("```json");
    reveal_strlit("```");
    let w = fence_wrapped(s);
    assert(w[0] == '`');
    assert(w.last() == '`');
    assert(!crate::text::is_ws('`'));
    crate::text::lemma_trim_noop(w);
    assert(w.take(7) =~= "```json"@);
    let b = w.skip(7);
    assert(b =~= s + "```"@);
    assert(b.skip(b.len() - 3) =~= "```"@);
    assert(b.take(b.len() - 3) =~= s);
    assert(strip_fence(w) == trimmed(s));
}

/// A payload wrapped in a markdown code fence on its own lines, as the
/// service usually emits it.
pub open spec fn fence_wrapped_padded(s: Seq<char>) -> Seq<char> {
    "```json\n"@ + s + "\n```"@
}

/// Fence stripping, the usual shape: a payload wrapped in a code fence on
/// its own lines strips to the trimmed payload, for every payload. With the
/// stripper also trimming an unfenced payload, the wrapped and the unwrapped
/// form of any payload that does not itself look fenced parse identically.
pub proof fn lemma_padded_fence_wrap_strips_same(s: Seq<char>)
    ensures
        strip_fence(fence_wrapped_padded(s)) == trimmed(s),
{
    reveal_strlit("```json\n");
    reveal_strlit("\n```");
    reveal_strlit("```json");
    reveal_strlit("```");
    let w = fence_wrapped_padded(s);
    assert(w[0] == '`');
    assert(w.last() == '`');
    assert(!crate::text::is_ws('`'));
    crate::text::lemma_trim_noop(w);
    assert(w.take(7) =~= "```json"@);
    let b = w.skip(7);
    assert(b =~= seq!['\n'] + s.push('\n') + "```"@);
    assert(b.skip(b.len() - 3) =~= "```"@);
    let c = b.take(b.len() - 3);
    assert(c =~= seq!['\n'] + s.push('\n'));
    crate::text::lemma_trimmed_ws_prepend('\n', s.push('\n'));
    crate::text::lemma_trimmed_ws_append(s, '\n');
    assert(strip_fence(w) == trimmed(s));
}

/// The first content recorded under `name` in a pair sequence, where one is.
pub open spec fn lookup(pairs: Seq<(Seq<char>, Seq<char>)>, name: Seq<char>) -> Option<Seq<char>>
    decreases pairs.len(),
{
    if pairs.len() == 0 {
        None
    } else if pairs[0].0 == name {
        Some(pairs[0].1)
    } else {
        lookup(pairs.skip(1), name)
    }
}

/// With unique keys, a pair anywhere in the sequence is what lookup finds.
pub proof fn lemma_lookup_found(pairs: Seq<(Seq<char>, Seq<char>)>, name: Seq<char>, i: int)
    requires
        forall|a: int, b: int| 0 <= a < b < pairs.len() ==> pairs[a].0 != pairs[b].0,
        0 <= i < pairs.len(),
        pairs[i].0 == name,
    ensures
        lookup(pairs, name) == Some(pairs[i].1),
    decreases pairs.len(),
{
    if i == 0 {
    } else {
        assert(pairs[0].0 != pairs[i].0);
        let t = pairs.skip(1);
        assert forall|a: int, b: int| 0 <= a < b < t.len() implies t[a].0 != t[b].0 by {
            assert(t[a] == pairs[a + 1] && t[b] == pairs[b + 1]);
        }
        assert(t[i - 1] == pairs[i]);
        lemma_lookup_found(t, name, i - 1);
    }
}

/// A name under no pair is not found.
pub proof fn lemma_lookup_absent(pairs: Seq<(Seq<char>, Seq<char>)>, name: Seq<char>)
    requires
        forall|a: int| 0 <= a < pairs.len() ==> pairs[a].0 != name,
    ensures
        lookup(pairs, name) is None,
    decreases pairs.len(),
{
    if pairs.len() == 0 {
    } else {
        let t = pairs.skip(1);
        assert forall|a: int| 0 <= a < t.len() implies t[a].0 != name by {
            assert(t[a] == pairs[a + 1]);
        }
        lemma_lookup_absent(t, name);
    }
}

/// What a well-formed generation payload parses to: the `files` object's
/// path-to-content pairs, unique keys in the order the parser's tree-backed
/// map yields them. `Err` carries the parser's error text for unparsable
/// JSON; `Ok(None)` stands for parsable JSON that is not an object holding a
/// `files` object of strings.
pub uninterp spec fn file_map_of(s: Seq<char>) -> Result<
    Option<Seq<(Seq<char>, Seq<char>)>>,
    Seq<char>,
>;

/// Relies on serde_json: `from_str` parses the payload into a JSON value
/// (`Err` carries that parser's error text), `Value::get` and `as_object`
/// select the `files` object, and `as_str` accepts exactly the string
/// entries. The backing map is a binary tree keyed by the path strings, so
/// the yielded keys are unique and the outcome depends on the payload alone.
#[verifier::external_body]
fn parse_file_map(s: &str) -> (r: Result<Option<Vec<(String, String)>>, String>)
    ensures
        (r matches Ok(o) && o is None ==> file_map_of(s@) == Ok::<
            Option<Seq<(Seq<char>, Seq<char>)>>,
            Seq<char>,
        >(None)),
        (r matches Ok(o) && o matches Some(v) ==> file_map_of(s@) == Ok::<
            Option<Seq<(Seq<char>, Seq<char>)>>,
            Seq<char>,
        >(Some(v@.map_values(|p: (String, String)| (p.0@, p.1@))))),
        (r matches Ok(o) && o matches Some(v) ==> forall|i: int, j: int|
            0 <= i < j < v@.len() ==> v@[i].0@ != v@[j].0@),
        (r matches Err(e) ==> file_map_of(s@) == Err::<
            Option<Seq<(Seq<char>, Seq<char>)>>,
            Seq<char>,
        >(e@)),
{
    let v: serde_json::Value = match serde_json::from_str(s) {
        Ok(v) => v,
        Err(e) => return Err(e.to_string()),
    };
    let o = match v.get("files").and_then(|f| f.as_object()) {
        Some(o) => o,
        None => return Ok(None),
    };
    let mut out: Vec<(String, String)> = Vec::new();
    for (k, val) in o {
        let t = match val.as_str() { Some(t) => t, None => return Ok(None) };
        out.push((k.clone(), t.to_string()));
    }
    Ok(Some(out))
}

/// What the service's response envelope holds: the `code` field's string.
/// `Err` carries the parser's error text for unparsable JSON; `Ok(None)`
/// stands for parsable JSON without a string `code` field.
pub uninterp spec fn code_field_of(s: Seq<char>) -> Result<Option<Seq<char>>, Seq<char>>;

/// Relies on serde_json: `from_str` parses the response body into a JSON
/// value (`Err` carries that parser's error text), and `Value::get` with
/// `as_str` selects the `code` field exactly when it is present as a string.
/// The outcome depends on the body alone.
#[verifier::external_body]
fn extract_code_field(body: &str) -> (r: Result<Option<String>, String>)
    ensures
        (r matches Ok(o) && o is None ==> code_field_of(body@) == Ok::<
            Option<Seq<char>>,
            Seq<char>,
        >(None)),
        (r matches Ok(o) && o matches Some(c) ==> code_field_of(body@) == Ok::<
            Option<Seq<char>>,
            Seq<char>,
        >(Some(c@))),
        (r matches Err(e) ==> code_field_of(body@) == Err::<Option<Seq<char>>, Seq<char>>(e@)),
{
    match serde_json::from_str::<serde_json::Value>(body) {
        Err(e) => Err(e.to_string()),
        Ok(v) => match v.get("code").and_then(|c| c.as_str()) {
            Some(s) => Ok(Some(s.to_string())),
            None => Ok(None),
        },
    }
}

/// The error text reported when a payload does not parse as the file-set
/// schema: the parse failure's detail, then the raw payload.
pub open spec fn spec_parse_error_msg(detail: Seq<char>, content: Seq<char>) -> Seq<char> {
    "Failed to parse file map from AI response `code` field: "@ + detail + ". Content was: "@
        + content
}

/// The detail reported for a payload that is valid JSON but not the expected
/// shape.
pub open spec fn spec_shape_detail() -> Seq<char> {
    "the payload is not a JSON object mapping file paths to string contents"@
}

fn parse_error_msg(detail: &str, content: &str) -> (r: String)
    ensures
        r@ == spec_parse_error_msg(detail@, content@),
{
    let mut out = String::new();
    out.append("Failed to parse file map from AI response `code` field: ");
    out.append(detail);
    out.append(". Content was: ");
    out.append(content);
    proof {
        assert(out@ =~= spec_parse_error_msg(detail@, content@));
    }
    out
}

/// Parses the generation service's payload — the `code` string, possibly
/// fence-wrapped — into the generated file set, or the exact error text for a
/// payload that does not parse as the file-set schema.
pub fn parse_generated_files(payload: &str) -> (r: Result<GeneratedFiles, String>)
    ensures
        match file_map_of(strip_fence(payload@)) {
            Ok(o) => match o {
                Some(m) => r matches Ok(g) && g.pairs() == m && g.wf(),
                None => r matches Err(e) && e@ == spec_parse_error_msg(
                    spec_shape_detail(),
                    payload@,
                ),
            },
            Err(d) => r matches Err(e) && e@ == spec_parse_error_msg(d, payload@),
        },
{
    let cleaned = strip_code_fence(payload);
    match parse_file_map(cleaned.as_str()) {
        Ok(o) => match o {
            Some(pairs) => {
                let g = GeneratedFiles { files: pairs };
                Ok(g)
            },
            None => Err(
                parse_error_msg(
                    "the payload is not a JSON object mapping file paths to string contents",
                    payload,
                ),
            ),
        },
        Err(e) => Err(parse_error_msg(e.as_str(), payload)),
    }
}

/// The error text reported when the generation service answers with a
/// non-success status: the response body stands in it verbatim.
pub open spec fn spec_service_error_msg(body: Seq<char>) -> Seq<char> {
    "Local AI service request failed: "@ + body
}

/// The detail reported for a response envelope that is valid JSON without a
/// string `code` field.
pub open spec fn spec_envelope_detail() -> Seq<char> {
    "the response JSON has no string `code` field"@
}

/// What interpreting the service's HTTP response yields: the file
/// path-to-content pairs on success, the exact error text otherwise. A
/// non-success status fails with the body in the error; a success body is
/// decoded as the response envelope and its payload parsed as the file-set
/// schema after fence stripping.
pub open spec fn spec_generation_result(status_success: bool, body: Seq<char>) -> Result<
    Seq<(Seq<char>, Seq<char>)>,
    Seq<char>,
> {
    if !status_success {
        Err(spec_service_error_msg(body))
    } else {
        match code_field_of(body) {
            Ok(o) => match o {
                Some(code) => match file_map_of(strip_fence(code)) {
                    Ok(po) => match po {
                        Some(m) => Ok(m),
                        None => Err(spec_parse_error_msg(spec_shape_detail(), code)),
                    },
                    Err(d) => Err(spec_parse_error_msg(d, code)),
                },
                None => Err(spec_envelope_detail()),
            },
            Err(d) => Err(d),
        }
    }
}

/// Interprets the generation service's HTTP response, given whether its
/// status was a success and its body text.
pub fn process_generation_response(status_success: bool, body: &str) -> (r: Result<
    GeneratedFiles,
    String,
>)
    ensures
        match spec_generation_result(status_success, body@) {
            Ok(m) => r matches Ok(g) && g.pairs() == m && g.wf(),
            Err(t) => r matches Err(e) && e@ == t,
        },
{
    if !status_success {
        let mut out = String::new();
        out.append("Local AI service request failed: ");
        out.append(body);
        proof {
            assert(out@ =~= spec_service_error_msg(body@));
        }
        return Err(out);
    }
    match extract_code_field(body) {
        Ok(o) => match o {
            Some(code) => parse_generated_files(code.as_str()),
            None => Err(String::from_str("the response JSON has no string `code` field")),
        },
        Err(e) => Err(e),
    }
}

} // verus!
