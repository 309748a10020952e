use vstd::prelude::*;
use vstd::string::StringExecFns;

use toml_edit::DocumentMut;

use crate::result::AftmanError;
use crate::sources::provider_key;
use crate::sources::ArtifactProvider;
use crate::util::join_path;
use crate::util::FileReadOutcome;

verus! {

/// The file name of the auth manifest inside a home directory.
pub const MANIFEST_FILE_NAME: &'static str = "auth.toml";

/// The contents materialized when no manifest exists yet: a header comment,
/// the project's repository URL (substituted at build time, never at
/// runtime) and one commented-out example entry.
pub const MANIFEST_DEFAULT_CONTENTS: &'static str = "\n# This file lists authentication tokens managed by Aftman, a cross-platform toolchain manager.\n# For more information, see https://github.com/LPGhatguy/aftman\n\n# github = \"ghp_tokenabcdef1234567890\"\n";

/// `toml_edit::DocumentMut`: a parsed TOML document that keeps lexical
/// trivia (comments, whitespace, key order) as first-class data. Opaque to
/// verification; described only through `doc_text` and `doc_entries`.
#[verifier::external_type_specification]
#[verifier::external_body]
pub struct ExDocumentMut(DocumentMut);

/// The text that `toml_edit`'s encoder writes for this document.
pub uninterp spec fn doc_text(d: DocumentMut) -> Seq<char>;

/// The top-level entries of a document: every present key maps to `Some` of
/// its string value when the value is a string, and to `None` when the value
/// has any other type.
pub uninterp spec fn doc_entries(d: DocumentMut) -> Map<Seq<char>, Option<Seq<char>>>;

/// What parsing a text as TOML yields: `None` when the text is malformed,
/// otherwise `Some` of the top-level entries, abstracted as in
/// `doc_entries`.
pub uninterp spec fn toml_table(s: Seq<char>) -> Option<Map<Seq<char>, Option<Seq<char>>>>;

/// The document text after storing a string value under a top-level key: a
/// function of the document and the two strings alone.
pub uninterp spec fn doc_text_after_insert(
    d: DocumentMut,
    key: Seq<char>,
    value: Seq<char>,
) -> Seq<char>;

/// Where, in the document's rendered text, the stored value of a present
/// string-valued top-level key begins — the segment between the key's `=`
/// sign and the line's end, spacing included.
pub uninterp spec fn doc_value_start(d: DocumentMut, key: Seq<char>) -> int;

/// Where the stored value segment named by `doc_value_start` ends.
pub uninterp spec fn doc_value_end(d: DocumentMut, key: Seq<char>) -> int;

/// How `toml_edit` renders a freshly stored string value: its default
/// spacing, one space, followed by the value as a quoted basic string — a
/// function of the value alone.
pub uninterp spec fn toml_value_repr(v: Seq<char>) -> Seq<char>;

/// The texts whose parsed form `toml_edit`'s encoder provably reproduces
/// byte for byte. The crate documents two things it does not preserve — the
/// order of dotted keys and the lack of a trailing newline — its lexer skips
/// a leading byte-order mark that the encoder then cannot restore, and the
/// encoder writes plain newlines where the grammar also admits CRLF. This
/// condition excludes all four: the text must be newline-terminated, must
/// not start with a byte-order mark, and must hold no carriage return and no
/// dot (a blunt bound that rules out dotted keys; it also excludes some
/// texts the encoder does preserve, such as dots inside values or comments,
/// because the exact preserved class is not statable in a few lines).
pub open spec fn text_round_trippable(s: Seq<char>) -> bool {
    &&& s.len() > 0 ==> s[s.len() - 1] == '\n'
    &&& s.len() > 0 ==> s[0] != '\u{feff}'
    &&& forall|i: int| 0 <= i < s.len() ==> s[i] != '\r'
    &&& forall|i: int| 0 <= i < s.len() ==> s[i] != '.'
}

/// Relies on `toml_edit`'s parser (`str::parse::<DocumentMut>`): it accepts
/// exactly the well-formed TOML texts and yields their top-level entries.
/// The parsed document re-encodes to the input text byte for byte for the
/// texts of `text_round_trippable`.
#[verifier::external_body]
fn doc_parse(s: &str) -> (r: Result<DocumentMut, String>)
    ensures
        r is Ok <==> toml_table(s@) is Some,
        r matches Ok(d) ==> toml_table(s@) matches Some(es) && doc_entries(d) == es,
        r matches Ok(d) ==> (text_round_trippable(s@) ==> doc_text(d) == s@),
{
    match s.parse::<DocumentMut>() {
        Ok(d) => Ok(d),
        Err(e) => Err(e.to_string()),
    }
}

/// The empty entry map: what a document of comments and blank lines holds.
pub open spec fn no_entries() -> Map<Seq<char>, Option<Seq<char>>> {
    Map::empty()
}

/// Relies on `toml_edit`'s parser on one fixed input: the default template
/// is made of comments and blank lines only, which parse to an empty root
/// table, so the call can never fail.
#[verifier::external_body]
fn default_document() -> (r: Result<DocumentMut, String>)
    ensures
        r is Ok,
        r matches Ok(d) ==> doc_entries(d) == no_entries(),
        r matches Ok(d) ==> toml_table(MANIFEST_DEFAULT_CONTENTS@) == Some(doc_entries(d)),
{
    match MANIFEST_DEFAULT_CONTENTS.parse::<DocumentMut>() {
        Ok(d) => Ok(d),
        Err(e) => Err(e.to_string()),
    }
}

/// Relies on `DocumentMut`'s `Display` encoder, whose output `doc_text`
/// names.
#[verifier::external_body]
fn doc_render(d: &DocumentMut) -> (r: String)
    ensures
        r@ == doc_text(*d),
{
    d.to_string()
}

/// Relies on `toml_edit::Table::contains_key`, reached through
/// `DocumentMut`'s deref to the root table: true exactly for the present
/// top-level keys.
#[verifier::external_body]
fn doc_contains_key(d: &DocumentMut, key: &str) -> (r: bool)
    ensures
        r == doc_entries(*d).contains_key(key@),
{
    d.contains_key(key)
}

/// Relies on `toml_edit::Table::get` and `Item::as_str`: answers the string
/// value stored under a top-level key, and `None` when the key is absent or
/// its value is not a string.
#[verifier::external_body]
fn doc_get_string(d: &DocumentMut, key: &str) -> (r: Option<String>)
    ensures
        r is Some <==> (doc_entries(*d).contains_key(key@) && doc_entries(*d)[key@] is Some),
        r matches Some(s) ==> doc_entries(*d)[key@] == Some(s@),
{
    match d.get(key) {
        Some(item) => match item.as_str() {
            Some(s) => Some(s.to_string()),
            None => None,
        },
        None => None,
    }
}

/// Relies on `toml_edit::Table::get_mut` and `Table::insert`, reached
/// through `DocumentMut`'s deref to the root table: the given string value
/// is stored under the key, replacing a present entry's item in place and
/// appending an absent key at the end of the root table's items (before any
/// bracketed section and before the document's trailing trivia; on a
/// comments-only document the new line therefore lands above the comments).
/// Every other entry is unchanged. When the key held a string value, only
/// that value's segment of the rendered text is rewritten — the encoder
/// renders each entry as its key with decor, an equals sign, the value with
/// decor, then a newline, so the key's position, its surrounding trivia and
/// all other lines survive; the new segment is `toml_value_repr(value)`.
/// The position of an inserted key's line is not stated: the entry map
/// cannot see bracketed sections, whose presence moves it.
#[verifier::external_body]
fn doc_insert_string(d: &mut DocumentMut, key: &str, value: &str)
    ensures
        doc_entries(*final(d)) == doc_entries(*old(d)).insert(key@, Some(value@)),
        doc_text(*final(d)) == doc_text_after_insert(*old(d), key@, value@),
        (doc_entries(*old(d)).contains_key(key@) && doc_entries(*old(d))[key@] is Some) ==> (0
            <= doc_value_start(*old(d), key@) && doc_value_start(*old(d), key@) <= doc_value_end(
            *old(d),
            key@,
        ) && doc_value_end(*old(d), key@) <= doc_text(*old(d)).len() && doc_text(*final(d))
            == doc_text(*old(d)).subrange(0, doc_value_start(*old(d), key@)) + toml_value_repr(
            value@,
        ) + doc_text(*old(d)).subrange(
            doc_value_end(*old(d), key@),
            doc_text(*old(d)).len() as int,
        )),
{
    match d.get_mut(key) {
        Some(item) => {
            *item = toml_edit::value(value);
        },
        None => {
            let _ = d.as_table_mut().insert(key, toml_edit::value(value));
        },
    }
}

/// Relies on `DocumentMut`'s derived `Clone`: a deep copy of the owned
/// document tree, equal to the original. `AuthManifest`'s own derived
/// `Clone` calls it.
pub assume_specification[ <DocumentMut as Clone>::clone ](d: &DocumentMut) -> (r: DocumentMut)
    ensures
        r == *d,
;

/// The spec-level content of an auth manifest: the exact text it serializes
/// to, and its top-level entries.
pub ghost struct AuthManifestView {
    pub text: Seq<char>,
    pub entries: Map<Seq<char>, Option<Seq<char>>>,
}

/// Authentication manifest file: a typed, format-preserving view over a
/// TOML document whose top-level keys are artifact-provider keys and whose
/// values are token strings. The exact loaded text is kept beside the
/// parsed document until the first mutation, so an unmutated manifest
/// serializes back to its file bytes unchanged, whatever they were; after a
/// mutation the document's encoder takes over, preserving unknown keys,
/// comments and blank lines.
#[derive(Debug, Clone)]
pub struct AuthManifest {
    document: DocumentMut,
    source: Option<String>,
}

impl View for AuthManifest {
    type V = AuthManifestView;

    closed spec fn view(&self) -> AuthManifestView {
        AuthManifestView {
            text: match self.source {
                Some(s) => s@,
                None => doc_text(self.document),
            },
            entries: doc_entries(self.document),
        }
    }
}

/// The serialized form that loading a manifest from the given text yields:
/// the text itself whenever it parses as TOML, and nothing otherwise.
pub open spec fn loaded_manifest_text(t: Seq<char>) -> Option<Seq<char>> {
    if toml_table(t) is Some {
        Some(t)
    } else {
        None
    }
}

/// The serialized form that materializing the default manifest yields,
/// `None` when the fixed template does not parse (it does; the trusted
/// default constructor states so to its callers).
pub open spec fn created_manifest_text() -> Option<Seq<char>> {
    if toml_table(MANIFEST_DEFAULT_CONTENTS@) is Some {
        Some(MANIFEST_DEFAULT_CONTENTS@)
    } else {
        None
    }
}

impl AuthManifest {
    /// What the document's encoder would write for this manifest — the
    /// serialized form once a mutation has dropped the kept source text.
    pub closed spec fn rendered_text(&self) -> Seq<char> {
        doc_text(self.document)
    }

    /// Where, in `rendered_text`, the stored value of a present
    /// string-valued key begins.
    pub closed spec fn value_span_start(&self, key: Seq<char>) -> int {
        doc_value_start(self.document, key)
    }

    /// Where that stored value segment ends.
    pub closed spec fn value_span_end(&self, key: Seq<char>) -> int {
        doc_value_end(self.document, key)
    }

    /// The serialized text this manifest will have after storing `token`
    /// under `key`.
    pub closed spec fn text_after_set(&self, key: Seq<char>, token: Seq<char>) -> Seq<char> {
        doc_text_after_insert(self.document, key, token)
    }

    /// Parse a manifest from TOML text. Succeeds exactly on well-formed
    /// TOML, holds the text's top-level entries, and serializes back to the
    /// text byte for byte as long as it is not mutated. For texts of
    /// `text_round_trippable` the document's own encoder reproduces the
    /// text too, so mutations stay local to what they change. A failure
    /// carries the parser's message.
    pub fn from_toml_text(text: &str) -> (r: Result<AuthManifest, String>)
        ensures
            r is Ok <==> toml_table(text@) is Some,
            r matches Ok(m) ==> (toml_table(text@) matches Some(es) && m@.entries == es) && m@.text
                == text@,
            r matches Ok(m) ==> (text_round_trippable(text@) ==> m.rendered_text() == text@),
    {
        match doc_parse(text) {
            Ok(document) => Ok(AuthManifest { document, source: Some(String::from_str(text)) }),
            Err(e) => Err(e),
        }
    }

    /// Serialize the manifest: the loaded text itself while no mutation has
    /// occurred, and the document's encoding afterwards.
    pub fn to_toml_text(&self) -> (r: String)
        ensures
            r@ == self@.text,
    {
        match &self.source {
            Some(s) => s.clone(),
            None => doc_render(&self.document),
        }
    }

    /// The default manifest: the fixed template text, parsed. It holds no
    /// entries at all — the example line is a comment — so no provider has
    /// a token.
    pub fn default_manifest() -> (r: AuthManifest)
        ensures
            r@.text == MANIFEST_DEFAULT_CONTENTS@,
            r@.entries == no_entries(),
            created_manifest_text() == Some(r@.text),
    {
        let document = default_document().unwrap();
        AuthManifest { document, source: Some(String::from_str(MANIFEST_DEFAULT_CONTENTS)) }
    }

    /// Whether the manifest holds a token entry for the given provider,
    /// whatever the entry's type.
    pub fn has_token(&self, artifact_provider: ArtifactProvider) -> (r: bool)
        ensures
            r == self@.entries.contains_key(provider_key(artifact_provider)),
    {
        doc_contains_key(&self.document, artifact_provider.as_str())
    }

    /// The authentication token stored for the given provider: `None` when
    /// the key is absent or its value is not a string (non-string values
    /// are user-authored extensions, ignored rather than rejected).
    pub fn get_token(&self, artifact_provider: ArtifactProvider) -> (r: Option<String>)
        ensures
            r is Some <==> (self@.entries.contains_key(provider_key(artifact_provider))
                && self@.entries[provider_key(artifact_provider)] is Some),
            r matches Some(s) ==> self@.entries[provider_key(artifact_provider)] == Some(s@),
    {
        doc_get_string(&self.document, artifact_provider.as_str())
    }

    /// Store the token for the given provider, inserting or replacing in
    /// place; answers whether a prior entry existed. Replacing a present
    /// string entry rewrites only that value's segment of the rendered
    /// text, so the key's position, its surrounding trivia and every other
    /// line survive; an insertion appends at the end of the root table's
    /// items. The new serialized text is the function of the old manifest
    /// and the token that `text_after_set` names.
    pub fn set_token(&mut self, artifact_provider: ArtifactProvider, token: &str) -> (r: bool)
        ensures
            final(self)@.entries == old(self)@.entries.insert(
                provider_key(artifact_provider),
                Some(token@),
            ),
            final(self)@.text == old(self).text_after_set(
                provider_key(artifact_provider),
                token@,
            ),
            (old(self)@.entries.contains_key(provider_key(artifact_provider)) && old(
                self,
            )@.entries[provider_key(artifact_provider)] is Some) ==> (0 <= old(
                self,
            ).value_span_start(provider_key(artifact_provider)) && old(self).value_span_start(
                provider_key(artifact_provider),
            ) <= old(self).value_span_end(provider_key(artifact_provider)) && old(
                self,
            ).value_span_end(provider_key(artifact_provider)) <= old(self).rendered_text().len()
                && final(self)@.text == old(self).rendered_text().subrange(
                0,
                old(self).value_span_start(provider_key(artifact_provider)),
            ) + toml_value_repr(token@) + old(self).rendered_text().subrange(
                old(self).value_span_end(provider_key(artifact_provider)),
                old(self).rendered_text().len() as int,
            )),
            r == old(self)@.entries.contains_key(provider_key(artifact_provider)),
    {
        let had = doc_contains_key(&self.document, artifact_provider.as_str());
        doc_insert_string(&mut self.document, artifact_provider.as_str(), token);
        self.source = None;
        had
    }

    /// The path of the manifest file under the given directory.
    pub fn file_path(dir: &str) -> (r: String)
        ensures
            r@ == dir@ + "/"@ + MANIFEST_FILE_NAME@,
    {
        join_path(dir, MANIFEST_FILE_NAME)
    }

    /// The decision step of `load`: classify the outcome of reading
    /// `<dir>/auth.toml` (whose path is `path`) into a manifest or the
    /// exact error owed — `FileNotFound` for a missing file, `Parse` for
    /// malformed contents, `Io` for any other read failure. A loaded
    /// manifest serializes back to the file's text unchanged.
    pub fn from_read_outcome(path: &str, outcome: FileReadOutcome) -> (r: Result<
        AuthManifest,
        AftmanError,
    >)
        ensures
            match outcome {
                FileReadOutcome::Found(t) => {
                    &&& (r is Ok <==> loaded_manifest_text(t@) is Some)
                    &&& (r matches Ok(m) ==> loaded_manifest_text(t@) == Some(m@.text) && m@.text
                        == t@)
                    &&& (r matches Ok(m) ==> (toml_table(t@) matches Some(es) && m@.entries == es))
                    &&& (r matches Err(e) ==> e matches AftmanError::Parse(p, _) && p@ == path@)
                },
                FileReadOutcome::Missing => r matches Err(e) && e matches AftmanError::FileNotFound(
                    p,
                ) && p@ == path@,
                FileReadOutcome::Failed(c) => r matches Err(e) && e matches AftmanError::Io(p, c2)
                    && p@ == path@ && c2@ == c@,
            },
    {
        match outcome {
            FileReadOutcome::Found(t) => match Self::from_toml_text(t.as_str()) {
                Ok(m) => Ok(m),
                Err(cause) => Err(AftmanError::Parse(String::from_str(path), cause)),
            },
            FileReadOutcome::Missing => Err(AftmanError::FileNotFound(String::from_str(path))),
            FileReadOutcome::Failed(cause) => Err(AftmanError::Io(String::from_str(path), cause)),
        }
    }

    /// The decision step of `load_or_create`: as `from_read_outcome`,
    /// except that a missing file is recovered by materializing the default
    /// template, which always succeeds and carries no tokens. The second
    /// component is the text that the caller must then persist to disk,
    /// present exactly when the file was missing.
    pub fn from_read_outcome_or_default(path: &str, outcome: FileReadOutcome) -> (r: Result<
        (AuthManifest, Option<String>),
        AftmanError,
    >)
        ensures
            match outcome {
                FileReadOutcome::Found(t) => {
                    &&& (r is Ok <==> loaded_manifest_text(t@) is Some)
                    &&& (r matches Ok(mw) ==> loaded_manifest_text(t@) == Some(mw.0@.text)
                        && mw.0@.text == t@ && mw.1 is None)
                    &&& (r matches Ok(mw) ==> (toml_table(t@) matches Some(es) && mw.0@.entries
                        == es))
                    &&& (r matches Err(e) ==> e matches AftmanError::Parse(p, _) && p@ == path@)
                },
                FileReadOutcome::Missing => r matches Ok(mw) && mw.0@.text
                    == MANIFEST_DEFAULT_CONTENTS@ && mw.0@.entries == no_entries() && (
                mw.1 matches Some(w) && w@ == mw.0@.text),
                FileReadOutcome::Failed(c) => r matches Err(e) && e matches AftmanError::Io(p, c2)
                    && p@ == path@ && c2@ == c@,
            },
    {
        match outcome {
            FileReadOutcome::Found(t) => match Self::from_toml_text(t.as_str()) {
                Ok(m) => Ok((m, None)),
                Err(cause) => Err(AftmanError::Parse(String::from_str(path), cause)),
            },
            FileReadOutcome::Missing => {
                let m = Self::default_manifest();
                let text = m.to_toml_text();
                Ok((m, Some(text)))
            },
            FileReadOutcome::Failed(cause) => Err(AftmanError::Io(String::from_str(path), cause)),
        }
    }
}

/// Law: a manifest loaded from a text serializes back to that exact text —
/// parse followed by serialize is the identity on every text it accepts.
pub proof fn lemma_parse_serialize_round_trip(t: Seq<char>)
    ensures
        loaded_manifest_text(t) matches Some(u) ==> u == t,
{
}

/// Law: materializing the default manifest writes exactly the text that the
/// manifest serializes to, and loading that text back yields the same
/// serialized form again — creating a missing manifest is idempotent.
pub proof fn lemma_load_or_create_idempotent(w: Seq<char>)
    ensures
        created_manifest_text() == Some(w) ==> loaded_manifest_text(w) == Some(w),
{
}

/// Law: after storing a token for a provider, reading that provider's entry
/// answers exactly the stored token — stated over the entry maps that the
/// `set_token` and `get_token` contracts use.
pub proof fn lemma_set_then_get(
    entries: Map<Seq<char>, Option<Seq<char>>>,
    p: ArtifactProvider,
    s: Seq<char>,
)
    ensures
        entries.insert(provider_key(p), Some(s)).contains_key(provider_key(p)),
        entries.insert(provider_key(p), Some(s))[provider_key(p)] == Some(s),
{
}

/// Law: from a manifest without the provider's key, the first store reports
/// no prior token, a second store reports one, and the entry then holds the
/// second token.
pub proof fn lemma_set_token_twice(
    entries: Map<Seq<char>, Option<Seq<char>>>,
    p: ArtifactProvider,
    s1: Seq<char>,
    s2: Seq<char>,
)
    requires
        !entries.contains_key(provider_key(p)),
    ensures
        entries.insert(provider_key(p), Some(s1)).contains_key(provider_key(p)),
        entries.insert(provider_key(p), Some(s1)).insert(provider_key(p), Some(s2))[provider_key(
            p,
        )] == Some(s2),
{
}

} // verus!

