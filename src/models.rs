use vstd::prelude::*;
use vstd::string::*;
use crate::text::str_eq;
use crate::urls::{
    contains_text, extension_of, file_extension, listed, scheme_and_path, url_parses, url_path,
    url_scheme,
};

verus! {

/// Abstract value of a [`VideoMode`]: a slate is identified by its URL.
pub ghost enum ModeView {
    Content,
    Slate(Seq<char>),
}

/// The classifier's verdict for a frame.
#[derive(Debug)]
pub enum VideoMode {
    Slate { url: String },
    Content,
}

impl View for VideoMode {
    type V = ModeView;

    open spec fn view(&self) -> ModeView {
        match self {
            VideoMode::Slate { url } => ModeView::Slate(url@),
            VideoMode::Content => ModeView::Content,
        }
    }
}

impl Clone for VideoMode {
    fn clone(&self) -> (r: Self)
        ensures
            r@ == self@,
    {
        match self {
            VideoMode::Slate { url } => VideoMode::Slate { url: url.clone() },
            VideoMode::Content => VideoMode::Content,
        }
    }
}

impl PartialEq for VideoMode {
    fn eq(&self, other: &VideoMode) -> (r: bool) {
        match (self, other) {
            (VideoMode::Content, VideoMode::Content) => true,
            (VideoMode::Slate { url: a }, VideoMode::Slate { url: b }) => *a == *b,
            _ => false,
        }
    }
}

impl vstd::std_specs::cmp::PartialEqSpecImpl for VideoMode {
    open spec fn obeys_eq_spec() -> bool {
        true
    }

    open spec fn eq_spec(&self, other: &VideoMode) -> bool {
        self@ == other@
    }
}

impl Eq for VideoMode {}

/// Lifecycle state of a watcher as reported by the control plane.
#[derive(Clone, Copy, Debug, PartialEq, Eq, Structural)]
pub enum Status {
    Running,
    Pending,
    Ready,
    Error,
}

/// Container format of the ingested stream.
#[derive(Clone, Copy, Debug, PartialEq, Eq, Structural)]
pub enum Container {
    RawVideo,
    MpegTs,
    Fmp4,
}

/// Video codec of the ingested stream.
#[derive(Clone, Copy, Debug, PartialEq, Eq, Structural)]
pub enum Codec {
    H264,
    H265,
}

/// Transport protocol of the ingested stream.
#[derive(Clone, Copy, Debug, PartialEq, Eq, Structural)]
pub enum Protocol {
    Rtp,
}

/// Where and how a watcher receives its video.
#[derive(Clone, Debug)]
pub struct Source {
    pub ingest_ip: Option<String>,
    pub ingest_port: u32,
    pub container: Container,
    pub codec: Codec,
    pub transport: Protocol,
}

/// HTTP verb of an outbound call.
#[derive(Clone, Copy, Debug, PartialEq, Eq, Structural)]
pub enum HttpMethod {
    POST,
    GET,
    PUT,
    PATCH,
    DELETE,
}

/// Credentials attached to an outbound call.
#[derive(Clone, Debug)]
pub enum HttpAuth {
    Basic { username: String, password: String },
}

/// An outbound HTTP request performed when a transition is observed.
/// Headers are kept as an association list of name and value.
#[derive(Clone, Debug)]
pub struct HttpCall {
    pub method: HttpMethod,
    pub url: String,
    pub description: Option<String>,
    pub authorization: Option<HttpAuth>,
    pub headers: Option<Vec<(String, String)>>,
    pub body: Option<String>,
    pub retries: Option<u8>,
    pub timeout: Option<u32>,
}

/// A side effect bound to a transition.
#[derive(Clone, Debug)]
pub enum Action {
    HttpCall(HttpCall),
}

/// A directed pair of video modes and the actions it triggers.
#[derive(Clone, Debug)]
pub struct Transition {
    pub from: VideoMode,
    pub to: VideoMode,
    pub actions: Vec<Action>,
}

/// Root configuration document of a watcher. Tags are kept as an
/// association list of key and value.
#[derive(Clone, Debug)]
pub struct Watcher {
    pub id: Option<String>,
    pub description: Option<String>,
    pub status: Option<Status>,
    pub status_description: Option<String>,
    pub source: Source,
    pub transitions: Vec<Transition>,
    pub tags: Option<Vec<(String, String)>>,
}

/// Longest tag key, in characters.
pub const TAG_MAX_KEY_LENGTH: usize = 40;

/// Longest tag value, in characters.
pub const TAG_MAX_VALUE_LENGTH: usize = 63;

/// Why a configuration is rejected.
#[derive(Clone, Copy, Debug, PartialEq, Eq, Structural)]
pub enum ConfigError {
    /// A slate URL does not parse, or its path has no file extension.
    InvalidUrl,
    /// A slate URL's file extension is not permitted.
    BadExtension,
    /// A slate URL's scheme is not permitted.
    BadScheme,
    /// The ingest port is not strictly between 1024 and 60000.
    PortOutOfRange,
    /// A tag key is empty or too long.
    TagKeyLength,
    /// A tag value is empty or too long.
    TagValueLength,
}

/// Description of a configuration error.
pub open spec fn config_error_text(e: ConfigError) -> Seq<char> {
    match e {
        ConfigError::InvalidUrl => "Invalid URL"@,
        ConfigError::BadExtension => "Invalid `slate_url` file extension. Valid values are the permitted image extensions."@,
        ConfigError::BadScheme => "Invalid `slate_url` URL scheme. Valid values are the permitted URL schemes."@,
        ConfigError::PortOutOfRange => "Source port is not within the valid range (1024-60000)"@,
        ConfigError::TagKeyLength => "Tag keys must be between 1 and 40 characters long."@,
        ConfigError::TagValueLength => "Tag values must be between 1 and 63 characters long."@,
    }
}

impl ConfigError {
    /// Human-readable description.
    pub fn message(&self) -> (r: String)
        ensures
            r@ == config_error_text(*self),
    {
        match self {
            ConfigError::InvalidUrl => String::from_str("Invalid URL"),
            ConfigError::BadExtension => String::from_str(
                "Invalid `slate_url` file extension. Valid values are the permitted image extensions.",
            ),
            ConfigError::BadScheme => String::from_str(
                "Invalid `slate_url` URL scheme. Valid values are the permitted URL schemes.",
            ),
            ConfigError::PortOutOfRange => String::from_str(
                "Source port is not within the valid range (1024-60000)",
            ),
            ConfigError::TagKeyLength => String::from_str(
                "Tag keys must be between 1 and 40 characters long.",
            ),
            ConfigError::TagValueLength => String::from_str(
                "Tag values must be between 1 and 63 characters long.",
            ),
        }
    }
}

/// The URL schemes and file extensions a slate URL may have.
#[derive(Clone, Debug)]
pub struct SlateUrlPolicy {
    pub schemes: Vec<String>,
    pub extensions: Vec<String>,
}

pub open spec fn texts(v: Seq<String>) -> Seq<Seq<char>> {
    v.map_values(|s: String| s@)
}

impl SlateUrlPolicy {
    /// The policy of deployment environment `env`: `prod` permits `http` and
    /// `https`, any other environment also `file`; the extensions are `jpg`,
    /// `jpeg` and `png`.
    pub fn for_environment(env: &str) -> (r: SlateUrlPolicy)
        ensures
            texts(r.schemes@) == if env@ == "prod"@ {
                seq!["http"@, "https"@]
            } else {
                seq!["http"@, "https"@, "file"@]
            },
            texts(r.extensions@) == seq!["jpg"@, "jpeg"@, "png"@],
    {
        let mut schemes: Vec<String> = Vec::new();
        schemes.push(String::from_str("http"));
        schemes.push(String::from_str("https"));
        let prod = str_eq(env, "prod");
        if !prod {
            schemes.push(String::from_str("file"));
        }
        let mut extensions: Vec<String> = Vec::new();
        extensions.push(String::from_str("jpg"));
        extensions.push(String::from_str("jpeg"));
        extensions.push(String::from_str("png"));
        assert(texts(extensions@) =~= seq!["jpg"@, "jpeg"@, "png"@]);
        if prod {
            assert(texts(schemes@) =~= seq!["http"@, "https"@]);
        } else {
            assert(texts(schemes@) =~= seq!["http"@, "https"@, "file"@]);
        }
        SlateUrlPolicy { schemes, extensions }
    }
}

/// Verdict on a slate URL with scheme `scheme` and path `path`: the path
/// needs an extension, the extension must be permitted, then the scheme.
pub open spec fn slate_url_verdict(scheme: Seq<char>, path: Seq<char>, policy: SlateUrlPolicy) -> Result<(), ConfigError> {
    match extension_of(path) {
        None => Err(ConfigError::InvalidUrl),
        Some(e) => if !listed(policy.extensions@, e) {
            Err(ConfigError::BadExtension)
        } else if !listed(policy.schemes@, scheme) {
            Err(ConfigError::BadScheme)
        } else {
            Ok(())
        },
    }
}

/// Verdict on a slate URL given its parsed scheme and path.
pub fn check_slate_url_parts(scheme: &str, path: &str, policy: &SlateUrlPolicy) -> (r: Result<(), ConfigError>)
    ensures
        r == slate_url_verdict(scheme@, path@, *policy),
{
    match file_extension(path) {
        None => Err(ConfigError::InvalidUrl),
        Some(ext) => if !contains_text(&policy.extensions, ext.as_str()) {
            Err(ConfigError::BadExtension)
        } else if !contains_text(&policy.schemes, scheme) {
            Err(ConfigError::BadScheme)
        } else {
            Ok(())
        },
    }
}

/// Verdict on a video mode: content is always valid; a slate's URL must parse
/// and pass [`slate_url_verdict`].
pub open spec fn mode_verdict(m: ModeView, policy: SlateUrlPolicy) -> Result<(), ConfigError> {
    match m {
        ModeView::Content => Ok(()),
        ModeView::Slate(u) => if !url_parses(u) {
            Err(ConfigError::InvalidUrl)
        } else {
            slate_url_verdict(url_scheme(u), url_path(u), policy)
        },
    }
}

impl VideoMode {
    /// Checks a slate URL against `policy`.
    pub fn is_valid(&self, policy: &SlateUrlPolicy) -> (r: Result<(), ConfigError>)
        ensures
            r == mode_verdict(self@, *policy),
    {
        match self {
            VideoMode::Content => Ok(()),
            VideoMode::Slate { url } => match scheme_and_path(url.as_str()) {
                None => Err(ConfigError::InvalidUrl),
                Some((scheme, path)) => check_slate_url_parts(scheme.as_str(), path.as_str(), policy),
            },
        }
    }
}

/// Whether `port` lies strictly between 1024 and 60000.
pub open spec fn port_in_range(port: u32) -> bool {
    1024 < port < 60000
}

impl Source {
    /// Checks the ingest port.
    pub fn is_valid(&self) -> (r: Result<(), ConfigError>)
        ensures
            r == if port_in_range(self.ingest_port) { Ok(()) } else { Err(ConfigError::PortOutOfRange) },
    {
        if self.ingest_port > 1024 && self.ingest_port < 60000 {
            Ok(())
        } else {
            Err(ConfigError::PortOutOfRange)
        }
    }
}

/// Verdict on a transition: its `from` mode, then its `to` mode.
pub open spec fn transition_verdict(t: Transition, policy: SlateUrlPolicy) -> Result<(), ConfigError> {
    match mode_verdict(t.from@, policy) {
        Err(e) => Err(e),
        Ok(_) => mode_verdict(t.to@, policy),
    }
}

impl Transition {
    /// Checks both modes of the transition.
    pub fn is_valid(&self, policy: &SlateUrlPolicy) -> (r: Result<(), ConfigError>)
        ensures
            r == transition_verdict(*self, *policy),
    {
        match self.from.is_valid(policy) {
            Err(e) => Err(e),
            Ok(()) => self.to.is_valid(policy),
        }
    }
}

/// Verdict on a list of transitions: that of the first invalid one.
pub open spec fn transitions_verdict(ts: Seq<Transition>, policy: SlateUrlPolicy) -> Result<(), ConfigError>
    decreases ts.len(),
{
    if ts.len() == 0 {
        Ok(())
    } else {
        match transition_verdict(ts[0], policy) {
            Err(e) => Err(e),
            Ok(_) => transitions_verdict(ts.drop_first(), policy),
        }
    }
}

/// A tag key or value of `len` characters is accepted under `max`.
pub open spec fn length_ok(len: nat, max: nat) -> bool {
    1 <= len <= max
}

/// The key of tag `i` has a rejected length.
pub open spec fn bad_key(t: Seq<(String, String)>, i: int) -> bool {
    !length_ok(t[i].0@.len(), TAG_MAX_KEY_LENGTH as nat)
}

/// The value of tag `i` has a rejected length.
pub open spec fn bad_value(t: Seq<(String, String)>, i: int) -> bool {
    !length_ok(t[i].1@.len(), TAG_MAX_VALUE_LENGTH as nat)
}

/// Some tag key has a rejected length.
pub open spec fn some_bad_key(t: Seq<(String, String)>) -> bool {
    exists|i: int| 0 <= i < t.len() && #[trigger] bad_key(t, i)
}

/// Some tag value has a rejected length.
pub open spec fn some_bad_value(t: Seq<(String, String)>) -> bool {
    exists|i: int| 0 <= i < t.len() && #[trigger] bad_value(t, i)
}

/// Verdict on tags: keys are checked before values.
pub open spec fn tags_verdict(tags: Option<Seq<(String, String)>>) -> Result<(), ConfigError> {
    match tags {
        None => Ok(()),
        Some(t) => if some_bad_key(t) {
            Err(ConfigError::TagKeyLength)
        } else if some_bad_value(t) {
            Err(ConfigError::TagValueLength)
        } else {
            Ok(())
        },
    }
}

pub open spec fn opt_tags(tags: Option<&Vec<(String, String)>>) -> Option<Seq<(String, String)>> {
    match tags {
        Some(t) => Some(t@),
        None => None,
    }
}

/// Verdict on a watcher: its source, then its transitions, then its tags.
pub open spec fn watcher_verdict(w: Watcher, policy: SlateUrlPolicy) -> Result<(), ConfigError> {
    if !port_in_range(w.source.ingest_port) {
        Err(ConfigError::PortOutOfRange)
    } else {
        match transitions_verdict(w.transitions@, policy) {
            Err(e) => Err(e),
            Ok(_) => tags_verdict(
                match w.tags {
                    Some(t) => Some(t@),
                    None => None,
                },
            ),
        }
    }
}

impl Watcher {
    /// Takes the description, source and transitions of `other_watcher`;
    /// identity, status and tags stay.
    pub fn merge(&mut self, other_watcher: Watcher)
        ensures
            final(self).description == other_watcher.description,
            final(self).source == other_watcher.source,
            final(self).transitions == other_watcher.transitions,
            final(self).id == old(self).id,
            final(self).status == old(self).status,
            final(self).status_description == old(self).status_description,
            final(self).tags == old(self).tags,
    {
        self.description = other_watcher.description;
        self.source = other_watcher.source;
        self.transitions = other_watcher.transitions;
    }

    /// Checks the whole configuration.
    pub fn is_valid(&self, policy: &SlateUrlPolicy) -> (r: Result<(), ConfigError>)
        ensures
            r == watcher_verdict(*self, *policy),
    {
        match self.source.is_valid() {
            Err(e) => Err(e),
            Ok(()) => match self.validate_transitions(policy) {
                Err(e) => Err(e),
                Ok(()) => self.validate_tags(self.tags.as_ref()),
            },
        }
    }

    /// Checks every transition, in order.
    pub fn validate_transitions(&self, policy: &SlateUrlPolicy) -> (r: Result<(), ConfigError>)
        ensures
            r == transitions_verdict(self.transitions@, *policy),
    {
        let ts = &self.transitions;
        let mut i: usize = 0;
        assert(ts@.subrange(0, ts.len() as int) =~= ts@);
        while i < ts.len()
            invariant
                i <= ts.len(),
                ts@ == self.transitions@,
                transitions_verdict(ts@, *policy) == transitions_verdict(ts@.subrange(i as int, ts.len() as int), *policy),
            decreases ts.len() - i,
        {
            let ghost rest = ts@.subrange(i as int, ts.len() as int);
            assert(rest.drop_first() =~= ts@.subrange(i + 1, ts.len() as int));
            assert(rest[0] == ts[i as int]);
            let v = ts[i].is_valid(policy);
            assert(transitions_verdict(rest, *policy) == match transition_verdict(rest[0], *policy) {
                Err(e) => Err(e),
                Ok(_) => transitions_verdict(rest.drop_first(), *policy),
            });
            if let Err(e) = v {
                assert(transition_verdict(rest[0], *policy) == Err::<(), ConfigError>(e));
                assert(transitions_verdict(rest, *policy) == Err::<(), ConfigError>(e));
                return Err(e);
            }
            i = i + 1;
        }
        Ok(())
    }

    /// Checks tag keys and values for length.
    pub fn validate_tags(&self, tags: Option<&Vec<(String, String)>>) -> (r: Result<(), ConfigError>)
        ensures
            r == tags_verdict(opt_tags(tags)),
    {
        match tags {
            None => Ok(()),
            Some(t) => {
                let mut i: usize = 0;
                while i < t.len()
                    invariant
                        i <= t.len(),
                        opt_tags(tags) == Some(t@),
                        forall|j: int| 0 <= j < i ==> !bad_key(t@, j),
                    decreases t.len() - i,
                {
                    let n = t[i].0.as_str().unicode_len();
                    if n == 0 || n > TAG_MAX_KEY_LENGTH {
                        assert(bad_key(t@, i as int));
                        return Err(ConfigError::TagKeyLength);
                    }
                    i = i + 1;
                }
                let mut i: usize = 0;
                while i < t.len()
                    invariant
                        i <= t.len(),
                        opt_tags(tags) == Some(t@),
                        forall|j: int| 0 <= j < t.len() ==> !bad_key(t@, j),
                        forall|j: int| 0 <= j < i ==> !bad_value(t@, j),
                    decreases t.len() - i,
                {
                    let n = t[i].1.as_str().unicode_len();
                    if n == 0 || n > TAG_MAX_VALUE_LENGTH {
                        assert(bad_value(t@, i as int));
                        return Err(ConfigError::TagValueLength);
                    }
                    i = i + 1;
                }
                Ok(())
            },
        }
    }
}

/// A slate mode whose URL parses and has a permitted extension and scheme;
/// content always qualifies.
pub open spec fn slate_url_allowed(m: ModeView, policy: SlateUrlPolicy) -> bool {
    match m {
        ModeView::Content => true,
        ModeView::Slate(u) => url_parses(u) && (match extension_of(url_path(u)) {
            Some(e) => listed(policy.extensions@, e),
            None => false,
        }) && listed(policy.schemes@, url_scheme(u)),
    }
}

proof fn lemma_transitions_each_valid(ts: Seq<Transition>, policy: SlateUrlPolicy, i: int)
    requires
        transitions_verdict(ts, policy) is Ok,
        0 <= i < ts.len(),
    ensures
        transition_verdict(ts[i], policy) is Ok,
    decreases ts.len(),
{
    if i > 0 {
        lemma_transitions_each_valid(ts.drop_first(), policy, i - 1);
    }
}

/// A watcher that passes validation ingests on a port strictly between 1024
/// and 60000, and the slate URLs of each of its transitions parse and have a
/// permitted extension and a permitted scheme.
pub proof fn lemma_valid_watcher(w: Watcher, policy: SlateUrlPolicy, i: int)
    requires
        watcher_verdict(w, policy) is Ok,
        0 <= i < w.transitions.len(),
    ensures
        port_in_range(w.source.ingest_port),
        slate_url_allowed(w.transitions[i].from@, policy),
        slate_url_allowed(w.transitions[i].to@, policy),
{
    lemma_transitions_each_valid(w.transitions@, policy, i);
}

} // verus!
