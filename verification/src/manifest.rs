use vstd::prelude::*;
use crate::error::{BundleError, BundleErrorView};
use crate::text::chars_of;
use crate::version::{semver_parse, Version, VersionView};

verus! {

/// The manifest of a package: who it is, which version, and how to start it.
#[derive(Debug, Clone, PartialEq, Eq)]
pub struct Manifest {
    pub id: String,
    pub version: Version,
    pub title: String,
    pub authors: String,
    pub description: String,
    pub machine_architecture: String,
    pub runtime_dependencies: String,
    pub main_exe: String,
    pub os: String,
    pub os_min_version: String,
}

/// A `Manifest` with its texts as sequences of characters.
pub struct ManifestView {
    pub id: Seq<char>,
    pub version: VersionView,
    pub title: Seq<char>,
    pub authors: Seq<char>,
    pub description: Seq<char>,
    pub machine_architecture: Seq<char>,
    pub runtime_dependencies: Seq<char>,
    pub main_exe: Seq<char>,
    pub os: Seq<char>,
    pub os_min_version: Seq<char>,
}

impl View for Manifest {
    type V = ManifestView;

    open spec fn view(&self) -> ManifestView {
        ManifestView {
            id: self.id@,
            version: self.version@,
            title: self.title@,
            authors: self.authors@,
            description: self.description@,
            machine_architecture: self.machine_architecture@,
            runtime_dependencies: self.runtime_dependencies@,
            main_exe: self.main_exe@,
            os: self.os@,
            os_min_version: self.os_min_version@,
        }
    }
}

impl ManifestView {
    /// The manifest before anything was read: every text empty, version 0.0.0.
    pub open spec fn blank() -> ManifestView {
        ManifestView {
            id: Seq::empty(),
            version: VersionView::plain(0, 0, 0),
            title: Seq::empty(),
            authors: Seq::empty(),
            description: Seq::empty(),
            machine_architecture: Seq::empty(),
            runtime_dependencies: Seq::empty(),
            main_exe: Seq::empty(),
            os: Seq::empty(),
            os_min_version: Seq::empty(),
        }
    }

    /// What every manifest handed to a caller satisfies: it has an `id`, a
    /// version other than 0.0.0 and a `mainExe`, and its `os` is empty or `win`.
    pub open spec fn is_valid(self) -> bool {
        &&& self.id.len() > 0
        &&& (self.os.len() == 0 || self.os == "win"@)
        &&& !self.version.is_zero()
        &&& self.main_exe.len() > 0
    }

    /// This manifest with `text` in the field that the element `element`
    /// stands for; unchanged where the element stands for none, or for the
    /// version.
    pub open spec fn with_text(self, element: Seq<char>, text: Seq<char>) -> ManifestView {
        if element == "id"@ {
            ManifestView { id: text, ..self }
        } else if element == "version"@ {
            self
        } else if element == "title"@ {
            ManifestView { title: text, ..self }
        } else if element == "authors"@ {
            ManifestView { authors: text, ..self }
        } else if element == "description"@ {
            ManifestView { description: text, ..self }
        } else if element == "machineArchitecture"@ {
            ManifestView { machine_architecture: text, ..self }
        } else if element == "runtimeDependencies"@ {
            ManifestView { runtime_dependencies: text, ..self }
        } else if element == "mainExe"@ {
            ManifestView { main_exe: text, ..self }
        } else if element == "os"@ {
            ManifestView { os: text, ..self }
        } else if element == "osMinVersion"@ {
            ManifestView { os_min_version: text, ..self }
        } else {
            self
        }
    }
}

/// One event of an XML document, as far as a manifest is read from it.
#[derive(Debug, Clone, PartialEq, Eq)]
pub enum XmlToken {
    /// An element opens; the text is its local name.
    StartElement(String),
    /// Character data.
    Characters(String),
    /// The innermost open element closes.
    EndElement,
    /// Any other event: the document's start and end, a comment, white space.
    Other,
    /// The document is malformed from here on.
    Error,
}

/// An `XmlToken` with its text as a sequence of characters.
pub enum XmlTokenView {
    StartElement(Seq<char>),
    Characters(Seq<char>),
    EndElement,
    Other,
    Error,
}

impl View for XmlToken {
    type V = XmlTokenView;

    open spec fn view(&self) -> XmlTokenView {
        match self {
            XmlToken::StartElement(name) => XmlTokenView::StartElement(name@),
            XmlToken::Characters(text) => XmlTokenView::Characters(text@),
            XmlToken::EndElement => XmlTokenView::EndElement,
            XmlToken::Other => XmlTokenView::Other,
            XmlToken::Error => XmlTokenView::Error,
        }
    }
}

/// The views of the tokens of `tokens`.
pub open spec fn token_views(tokens: Seq<XmlToken>) -> Seq<XmlTokenView> {
    tokens.map_values(|t: XmlToken| t@)
}

/// The views of the texts of `texts`.
pub open spec fn text_views(texts: Seq<String>) -> Seq<Seq<char>> {
    texts.map_values(|t: String| t@)
}

/// Why a scan stopped before the end of the tokens.
pub enum ScanStop {
    /// The document is malformed.
    Malformed,
    /// The text of a `version` element is no semantic version.
    BadVersion,
}

/// Where a scan of a manifest's tokens stands.
pub struct ScanState {
    /// The names of the open elements, the innermost last.
    pub open: Seq<Seq<char>>,
    /// What was read so far.
    pub fields: ManifestView,
    /// Whether the scan has stopped, and why.
    pub stopped: Option<ScanStop>,
}

impl ScanState {
    /// The state before the first token.
    pub open spec fn start() -> ScanState {
        ScanState { open: Seq::empty(), fields: ManifestView::blank(), stopped: None }
    }

    /// The state after `token`. A stopped scan stays as it is. An opening
    /// element is noted, a closing one forgotten. Character data goes to the
    /// field of the innermost open element, and is dropped outside any element;
    /// in a `version` element it must be a semantic version, else the scan
    /// stops. A malformed document stops the scan and discards what was read.
    pub open spec fn step(self, token: XmlTokenView) -> ScanState {
        if self.stopped is Some {
            self
        } else {
            match token {
                XmlTokenView::StartElement(name) => ScanState {
                    open: self.open.push(name),
                    ..self
                },
                XmlTokenView::Characters(text) => {
                    if self.open.len() == 0 {
                        self
                    } else if self.open.last() == "version"@ {
                        match semver_parse(text) {
                            Some(version) => ScanState {
                                fields: ManifestView { version, ..self.fields },
                                ..self
                            },
                            None => ScanState { stopped: Some(ScanStop::BadVersion), ..self },
                        }
                    } else {
                        ScanState { fields: self.fields.with_text(self.open.last(), text), ..self }
                    }
                },
                XmlTokenView::EndElement => {
                    if self.open.len() == 0 {
                        self
                    } else {
                        ScanState { open: self.open.drop_last(), ..self }
                    }
                },
                XmlTokenView::Other => self,
                XmlTokenView::Error => ScanState {
                    fields: ManifestView::blank(),
                    stopped: Some(ScanStop::Malformed),
                    ..self
                },
            }
        }
    }
}

/// The state after the first `n` tokens of `tokens`.
pub open spec fn scan_tokens(tokens: Seq<XmlTokenView>, n: nat) -> ScanState
    decreases n,
{
    if n == 0 {
        ScanState::start()
    } else {
        scan_tokens(tokens, (n - 1) as nat).step(tokens[n - 1])
    }
}

/// The manifest that `fields` make, or what they lack. The checks come in
/// this order: the `id`, the `os`, the version, the `mainExe`. A manifest
/// without a title has its `id` for a title.
pub open spec fn validate(fields: ManifestView) -> Result<ManifestView, BundleErrorView> {
    if fields.id.len() == 0 {
        Err(BundleErrorView::MissingId)
    } else if fields.os.len() > 0 && fields.os != "win"@ {
        Err(BundleErrorView::UnsupportedOs(fields.os))
    } else if fields.version.is_zero() {
        Err(BundleErrorView::MissingVersion)
    } else if fields.main_exe.len() == 0 {
        Err(BundleErrorView::MissingMainExe)
    } else if fields.title.len() == 0 {
        Ok(ManifestView { title: fields.id, ..fields })
    } else {
        Ok(fields)
    }
}

/// The manifest that a document's tokens hold, or why they hold none: a
/// version that is no semantic version is reported as such; otherwise what
/// was read is validated.
pub open spec fn decode_tokens(tokens: Seq<XmlTokenView>) -> Result<ManifestView, BundleErrorView> {
    let end = scan_tokens(tokens, tokens.len());
    if end.stopped == Some(ScanStop::BadVersion) {
        Err(BundleErrorView::InvalidVersion)
    } else {
        validate(end.fields)
    }
}

/// The view of what a function that reads a manifest returns.
pub open spec fn manifest_result(r: Result<Manifest, BundleError>) -> Result<
    ManifestView,
    BundleErrorView,
> {
    match r {
        Ok(m) => Ok(m@),
        Err(e) => Err(e@),
    }
}

/// The events that the reader of `xml-rs`, as `EventReader::new` sets it up,
/// yields for the document `text`, up to and including the first error or
/// the end of the document.
pub uninterp spec fn xml_event_stream(text: Seq<char>) -> Seq<XmlTokenView>;

/// Walks the iterator of `xml::reader::EventReader` over `text`. The contract
/// claims that the events are a function of the text alone, and names them
/// `xml_event_stream`. Of each event it keeps the kind, the local name of an
/// opening element, and the text of character data.
#[verifier::external_body]
fn xml_tokens(text: &str) -> (tokens: Vec<XmlToken>)
    ensures
        token_views(tokens@) == xml_event_stream(text@),
{
    xml::reader::EventReader::new(text.as_bytes()).into_iter().map(
        |event|
            match event {
                Ok(xml::reader::XmlEvent::StartElement { name, .. }) => XmlToken::StartElement(
                    name.local_name,
                ),
                Ok(xml::reader::XmlEvent::Characters(text)) => XmlToken::Characters(text),
                Ok(xml::reader::XmlEvent::EndElement { .. }) => XmlToken::EndElement,
                Ok(_) => XmlToken::Other,
                Err(_) => XmlToken::Error,
            },
    ).collect()
}

/// Whether two texts are the same.
pub fn same_text(a: &str, b: &str) -> (r: bool)
    ensures
        r == (a@ == b@),
{
    let x = chars_of(a);
    let y = chars_of(b);
    if x.len() != y.len() {
        return false;
    }
    let mut i: usize = 0;
    while i < x.len()
        invariant
            i <= x.len(),
            x.len() == y.len(),
            x@ == a@,
            y@ == b@,
            forall|k: int| 0 <= k < i ==> x@[k] == y@[k],
        decreases x.len() - i,
    {
        if x[i] != y[i] {
            assert(a@[i as int] != b@[i as int]);
            return false;
        }
        i += 1;
    }
    assert(x@ =~= y@);
    true
}

impl Default for Manifest {
    fn default() -> (m: Manifest)
        ensures
            m@ == ManifestView::blank(),
    {
        Manifest {
            id: String::new(),
            version: Version::new(0, 0, 0),
            title: String::new(),
            authors: String::new(),
            description: String::new(),
            machine_architecture: String::new(),
            runtime_dependencies: String::new(),
            main_exe: String::new(),
            os: String::new(),
            os_min_version: String::new(),
        }
    }
}

impl Manifest {
    /// Puts `text` into the field that the element `element` stands for.
    fn set_text(&mut self, element: &str, text: String)
        requires
            element@ != "version"@,
        ensures
            final(self)@ == old(self)@.with_text(element@, text@),
    {
        if same_text(element, "id") {
            self.id = text;
        } else if same_text(element, "title") {
            self.title = text;
        } else if same_text(element, "authors") {
            self.authors = text;
        } else if same_text(element, "description") {
            self.description = text;
        } else if same_text(element, "machineArchitecture") {
            self.machine_architecture = text;
        } else if same_text(element, "runtimeDependencies") {
            self.runtime_dependencies = text;
        } else if same_text(element, "mainExe") {
            self.main_exe = text;
        } else if same_text(element, "os") {
            self.os = text;
        } else if same_text(element, "osMinVersion") {
            self.os_min_version = text;
        }
    }
}

/// Checks what was read of a manifest, and gives a manifest without a title
/// its `id` for a title.
pub fn validate_manifest(fields: Manifest) -> (r: Result<Manifest, BundleError>)
    ensures
        manifest_result(r) == validate(fields@),
        r matches Ok(m) ==> m@.is_valid(),
{
    let mut fields = fields;
    if fields.id.as_str().is_empty() {
        return Err(BundleError::MissingId);
    }
    if !fields.os.as_str().is_empty() && !same_text(fields.os.as_str(), "win") {
        return Err(BundleError::UnsupportedOs(fields.os));
    }
    if fields.version.is_zero() {
        return Err(BundleError::MissingVersion);
    }
    if fields.main_exe.as_str().is_empty() {
        return Err(BundleError::MissingMainExe);
    }
    if fields.title.as_str().is_empty() {
        fields.title = fields.id.clone();
    }
    Ok(fields)
}

/// Reads a manifest from the events of its document.
pub fn read_manifest_from_tokens(tokens: &Vec<XmlToken>) -> (r: Result<Manifest, BundleError>)
    ensures
        manifest_result(r) == decode_tokens(token_views(tokens@)),
        r matches Ok(m) ==> m@.is_valid(),
{
    let ghost views = token_views(tokens@);
    let mut open: Vec<String> = Vec::new();
    let mut fields = Manifest::default();
    let mut malformed = false;
    let mut i: usize = 0;
    assert(text_views(open@) =~= Seq::<Seq<char>>::empty());
    while i < tokens.len() && !malformed
        invariant
            i <= tokens.len(),
            views == token_views(tokens@),
            scan_tokens(views, i as nat).open == text_views(open@),
            scan_tokens(views, i as nat).fields == fields@,
            scan_tokens(views, i as nat).stopped == if malformed {
                Some(ScanStop::Malformed)
            } else {
                None
            },
        decreases tokens.len() - i,
    {
        let ghost before = scan_tokens(views, i as nat);
        assert(views[i as int] == tokens@[i as int]@);
        match &tokens[i] {
            XmlToken::StartElement(name) => {
                open.push(name.clone());
                assert(text_views(open@) =~= before.open.push(name@));
            },
            XmlToken::Characters(text) => {
                if open.len() > 0 {
                    let element = &open[open.len() - 1];
                    assert(element@ == before.open.last());
                    if same_text(element.as_str(), "version") {
                        match Version::parse(text.as_str()) {
                            Ok(version) => {
                                fields.version = version;
                            },
                            Err(e) => {
                                proof {
                                    lemma_stopped_scan_stays(views, (i + 1) as nat, views.len());
                                }
                                return Err(e);
                            },
                        }
                    } else {
                        fields.set_text(element.as_str(), text.clone());
                    }
                }
            },
            XmlToken::EndElement => {
                if open.len() > 0 {
                    open.pop();
                    assert(text_views(open@) =~= before.open.drop_last());
                }
            },
            XmlToken::Other => {},
            XmlToken::Error => {
                fields = Manifest::default();
                malformed = true;
            },
        }
        i += 1;
    }
    proof {
        if malformed {
            lemma_stopped_scan_stays(views, i as nat, views.len());
        }
    }
    validate_manifest(fields)
}

/// Reads a manifest from the text of its XML document. A malformed document
/// counts as one in which nothing was read, so it fails for its missing `id`.
pub fn read_manifest_from_string(xml: &str) -> (r: Result<Manifest, BundleError>)
    ensures
        manifest_result(r) == decode_tokens(xml_event_stream(xml@)),
        r matches Ok(m) ==> m@.is_valid(),
{
    let tokens = xml_tokens(xml);
    read_manifest_from_tokens(&tokens)
}

/// A scan that has stopped stays as it is, whatever follows.
pub proof fn lemma_stopped_scan_stays(tokens: Seq<XmlTokenView>, n: nat, m: nat)
    requires
        n <= m,
        scan_tokens(tokens, n).stopped is Some,
    ensures
        scan_tokens(tokens, m) == scan_tokens(tokens, n),
    decreases m - n,
{
    if n < m {
        lemma_stopped_scan_stays(tokens, n, (m - 1) as nat);
    }
}

} // verus!
