//! The data directory: where it is, whether it is complete, and which
//! components it holds at which version.

use vstd::prelude::*;
use vstd::string::*;
use crate::error::Error;
use crate::text::same_text;

verus! {

/// What `Path::join` makes of a base path and a relative path, as text.
pub uninterp spec fn path_join(base: Seq<char>, rel: Seq<char>) -> Seq<char>;

/// Relies on `std::path::Path::join`: the result depends on the two texts alone.
#[verifier::external_body]
pub(crate) fn join_path(base: &str, rel: &str) -> (r: String)
    ensures
        r@ == path_join(base@, rel@),
{
    std::path::Path::new(base).join(rel).to_string_lossy().into_owned()
}

/// A character with the Unicode White_Space property, as `char::is_whitespace`
/// tests it.
pub open spec fn is_white_space(c: char) -> bool {
    let u = c as u32;
    ||| 0x09 <= u <= 0x0D
    ||| u == 0x20
    ||| u == 0x85
    ||| u == 0xA0
    ||| u == 0x1680
    ||| 0x2000 <= u <= 0x200A
    ||| u == 0x2028
    ||| u == 0x2029
    ||| u == 0x202F
    ||| u == 0x205F
    ||| u == 0x3000
}

/// A text with its leading white space removed.
pub open spec fn trim_start(s: Seq<char>) -> Seq<char>
    decreases s.len(),
{
    if s.len() > 0 && is_white_space(s[0]) {
        trim_start(s.drop_first())
    } else {
        s
    }
}

/// A text with its trailing white space removed.
pub open spec fn trim_end(s: Seq<char>) -> Seq<char>
    decreases s.len(),
{
    if s.len() > 0 && is_white_space(s.last()) {
        trim_end(s.drop_last())
    } else {
        s
    }
}

/// A text with its leading and trailing white space removed.
pub open spec fn trim_of(s: Seq<char>) -> Seq<char> {
    trim_end(trim_start(s))
}

/// Relies on `str::trim`: it removes the leading and trailing characters that
/// `char::is_whitespace` accepts, and nothing else.
#[verifier::external_body]
fn trim_text(s: &str) -> (r: &str)
    ensures
        r@ == trim_of(s@),
{
    s.trim()
}

/// Number of files that must be present for the data to be available.
pub const REQUIRED_FILE_COUNT: usize = 8;

/// Required data file `k`, relative to the data directory.
pub open spec fn required_file(k: int) -> Seq<char> {
    if k == 0 {
        "address_expansions/address_dictionary.dat"@
    } else if k == 1 {
        "numex/numex.dat"@
    } else if k == 2 {
        "transliteration/transliteration.dat"@
    } else if k == 3 {
        "address_parser/address_parser_crf.dat"@
    } else if k == 4 {
        "address_parser/address_parser_phrases.dat"@
    } else if k == 5 {
        "address_parser/address_parser_postal_codes.dat"@
    } else if k == 6 {
        "address_parser/address_parser_vocab.trie"@
    } else {
        "language_classifier/language_classifier.dat"@
    }
}

/// Required data file `k`, relative to the data directory.
pub fn required_file_text(k: usize) -> (r: &'static str)
    requires
        k < REQUIRED_FILE_COUNT,
    ensures
        r@ == required_file(k as int),
{
    if k == 0 {
        "address_expansions/address_dictionary.dat"
    } else if k == 1 {
        "numex/numex.dat"
    } else if k == 2 {
        "transliteration/transliteration.dat"
    } else if k == 3 {
        "address_parser/address_parser_crf.dat"
    } else if k == 4 {
        "address_parser/address_parser_phrases.dat"
    } else if k == 5 {
        "address_parser/address_parser_postal_codes.dat"
    } else if k == 6 {
        "address_parser/address_parser_vocab.trie"
    } else {
        "language_classifier/language_classifier.dat"
    }
}

/// What a look at the data directory found: whether it exists, and the size
/// of each required file in order (`None` where the file is missing).
pub struct DataDirStatus {
    /// The directory exists.
    pub dir_exists: bool,
    /// Size of required file `k`, for each `k`; a missing entry counts as a
    /// missing file.
    pub file_sizes: Vec<Option<u64>>,
}

/// Required file `k` is present and non-empty.
pub open spec fn file_ok(st: DataDirStatus, k: int) -> bool {
    &&& k < st.file_sizes@.len()
    &&& st.file_sizes@[k] matches Some(n)
    &&& n > 0
}

/// The data is available: the directory exists and every required file is
/// present and non-empty.
pub open spec fn available(st: DataDirStatus) -> bool {
    st.dir_exists && forall|k: int| 0 <= k < REQUIRED_FILE_COUNT ==> #[trigger] file_ok(st, k)
}

/// The first required file from `k` on that is missing or empty, if any.
pub open spec fn first_bad_from(st: DataDirStatus, k: int) -> Option<int>
    decreases REQUIRED_FILE_COUNT - k,
{
    if k < 0 || k >= REQUIRED_FILE_COUNT {
        None
    } else if !file_ok(st, k) {
        Some(k)
    } else {
        first_bad_from(st, k + 1)
    }
}

/// The first required file that is missing or empty, if any.
pub open spec fn first_bad(st: DataDirStatus) -> Option<int> {
    first_bad_from(st, 0)
}

/// The message naming why required file `k` fails.
pub open spec fn bad_file_message(st: DataDirStatus, k: int) -> Seq<char> {
    if k < st.file_sizes@.len() && st.file_sizes@[k] is Some {
        "Empty data file: "@ + required_file(k)
    } else {
        "Missing data file: "@ + required_file(k)
    }
}

/// What verifying the data reports: nothing when it is available, else a
/// data error naming the first missing or empty file; with no directory at
/// all, every file is missing, so the first one is named.
pub open spec fn verify_outcome(st: DataDirStatus, r: Result<(), Error>) -> bool {
    if !st.dir_exists {
        r matches Err(Error::DataError { message }) && message@ == "Missing data file: "@
            + required_file(0)
    } else {
        match first_bad(st) {
            None => r is Ok,
            Some(k) => r matches Err(Error::DataError { message }) && message@
                == bad_file_message(st, k),
        }
    }
}

proof fn lemma_first_bad_from(st: DataDirStatus, k: int)
    requires
        0 <= k <= REQUIRED_FILE_COUNT,
    ensures
        first_bad_from(st, k) is None <==> forall|j: int|
            k <= j < REQUIRED_FILE_COUNT ==> #[trigger] file_ok(st, j),
        first_bad_from(st, k) matches Some(j) ==> k <= j < REQUIRED_FILE_COUNT && !file_ok(st, j),
    decreases REQUIRED_FILE_COUNT - k,
{
    if k < REQUIRED_FILE_COUNT {
        lemma_first_bad_from(st, k + 1);
    }
}

/// Availability and verification agree: the data is available exactly when
/// verifying it reports no error.
pub proof fn lemma_available_iff_verified(st: DataDirStatus, r: Result<(), Error>)
    requires
        verify_outcome(st, r),
    ensures
        available(st) == r is Ok,
{
    lemma_first_bad_from(st, 0);
}

/// Relies on `dirs::cache_dir`: the user's cache directory, if the platform
/// and environment name one. Nothing is promised of its value.
#[verifier::external_body]
fn user_cache_dir() -> (r: Option<String>) {
    dirs::cache_dir().map(|p| p.to_string_lossy().into_owned())
}

/// What was found about each candidate data directory, in priority order.
pub struct DataDirProbe {
    /// The directory named by the override variable, if set.
    pub env_dir: Option<String>,
    /// That directory exists.
    pub env_dir_exists: bool,
    /// The directory fixed when the library was built, if any.
    pub build_dir: Option<String>,
    /// That directory exists.
    pub build_dir_exists: bool,
    /// The project-local `data/libpostal` directory exists.
    pub project_dir_exists: bool,
    /// The user's cache directory, if the platform names one.
    pub cache_dir: Option<String>,
}

impl DataDirProbe {
    /// Gathers the given findings, and asks the platform for the user's cache
    /// directory.
    pub fn new(
        env_dir: Option<String>,
        env_dir_exists: bool,
        build_dir: Option<String>,
        build_dir_exists: bool,
        project_dir_exists: bool,
    ) -> (r: DataDirProbe)
        ensures
            r.env_dir == env_dir,
            r.env_dir_exists == env_dir_exists,
            r.build_dir == build_dir,
            r.build_dir_exists == build_dir_exists,
            r.project_dir_exists == project_dir_exists,
    {
        DataDirProbe {
            env_dir,
            env_dir_exists,
            build_dir,
            build_dir_exists,
            project_dir_exists,
            cache_dir: user_cache_dir(),
        }
    }
}

/// The data directory chosen from what a probe found: the override if it
/// exists, else the build-time directory if it exists, else the project-local
/// directory if it exists, else `libpostal-rs` under the user's cache
/// directory, else `.libpostal-rs` under the working directory.
pub open spec fn resolved_dir(p: DataDirProbe) -> Seq<char> {
    if p.env_dir is Some && p.env_dir_exists {
        p.env_dir->0@
    } else if p.build_dir is Some && p.build_dir_exists {
        p.build_dir->0@
    } else if p.project_dir_exists {
        "data/libpostal"@
    } else if p.cache_dir is Some {
        path_join(p.cache_dir->0@, "libpostal-rs"@)
    } else {
        ".libpostal-rs"@
    }
}

/// Chooses the data directory from what a probe found.
pub fn resolve_data_dir(p: &DataDirProbe) -> (r: String)
    ensures
        r@ == resolved_dir(*p),
{
    if let Some(dir) = &p.env_dir {
        if p.env_dir_exists {
            return dir.clone();
        }
    }
    if let Some(dir) = &p.build_dir {
        if p.build_dir_exists {
            return dir.clone();
        }
    }
    if p.project_dir_exists {
        return String::from_str("data/libpostal");
    }
    match &p.cache_dir {
        Some(cache) => join_path(cache.as_str(), "libpostal-rs"),
        None => String::from_str(".libpostal-rs"),
    }
}

/// Size of one range request of a multipart download.
pub const CHUNK_SIZE: usize = 64 * 1024 * 1024;

/// Number of parallel download workers used by default.
pub const DEFAULT_NUM_WORKERS: usize = 12;

/// Configuration of data management, fixed once made.
#[derive(Debug, Clone)]
pub struct DataConfig {
    /// The data directory.
    pub data_dir: String,
    /// Download missing data automatically.
    pub auto_download: bool,
    /// Check the data files after making sure they are there.
    pub verify_integrity: bool,
    /// Base URL for data downloads.
    pub base_url: String,
    /// Timeout of a whole download, in seconds.
    pub timeout_seconds: u64,
    /// Number of parallel download workers.
    pub download_workers: usize,
    /// Size of one range request of a multipart download, in bytes.
    pub chunk_size: usize,
    /// Number of attempts for each range request.
    pub max_retries: usize,
    /// Timeout of one range request, in seconds.
    pub chunk_timeout_seconds: u64,
}

impl DataConfig {
    /// The default configuration for data kept in `data_dir`.
    pub fn new(data_dir: &str) -> (r: DataConfig)
        ensures
            r.data_dir@ == data_dir@,
            r.auto_download,
            r.verify_integrity,
            r.base_url@ == "https://github.com/openvenues/libpostal/releases/download/v1.1/"@,
            r.timeout_seconds == 300,
            r.download_workers == DEFAULT_NUM_WORKERS,
            r.chunk_size == CHUNK_SIZE,
            r.max_retries == 3,
            r.chunk_timeout_seconds == 30,
    {
        DataConfig {
            data_dir: data_dir.to_owned(),
            auto_download: true,
            verify_integrity: true,
            base_url: String::from_str(
                "https://github.com/openvenues/libpostal/releases/download/v1.1/",
            ),
            timeout_seconds: 300,
            download_workers: DEFAULT_NUM_WORKERS,
            chunk_size: CHUNK_SIZE,
            max_retries: 3,
            chunk_timeout_seconds: 30,
        }
    }

    /// The default configuration for data in the directory a probe resolves to.
    pub fn from_probe(p: &DataDirProbe) -> (r: DataConfig)
        ensures
            r.data_dir@ == resolved_dir(*p),
            r.auto_download,
            r.verify_integrity,
            r.timeout_seconds == 300,
            r.chunk_size == CHUNK_SIZE,
            r.max_retries == 3,
    {
        let dir = resolve_data_dir(p);
        DataConfig::new(dir.as_str())
    }
}

/// One independently versioned slice of the model data.
#[derive(Debug, Clone, Copy, PartialEq, Eq, Structural)]
pub enum DataComponent {
    /// Address expansions, numeric expressions and transliteration tables.
    Base,
    /// The address parser model.
    Parser,
    /// The language classifier model.
    LanguageClassifier,
    /// Every component at once.
    All,
}

/// The abstract content of a component description.
pub struct ComponentSpec {
    /// Version the component is installed at.
    pub version: Seq<char>,
    /// Number of range requests its archive is fetched in.
    pub num_chunks: nat,
    /// Name of its archive.
    pub filename: Seq<char>,
    /// Display name.
    pub name: Seq<char>,
    /// Directories its archive fills.
    pub subdirs: Seq<Seq<char>>,
}

/// Version, chunk count, archive, display name and directories of each component.
pub open spec fn component_spec(c: DataComponent) -> ComponentSpec {
    match c {
        DataComponent::Base => ComponentSpec {
            version: "v1.0.0"@,
            num_chunks: 1,
            filename: "libpostal_data.tar.gz"@,
            name: "data file"@,
            subdirs: seq!["address_expansions"@, "numex"@, "transliteration"@],
        },
        DataComponent::Parser => ComponentSpec {
            version: "v1.0.0"@,
            num_chunks: 12,
            filename: "parser.tar.gz"@,
            name: "parser data file"@,
            subdirs: seq!["address_parser"@],
        },
        DataComponent::LanguageClassifier => ComponentSpec {
            version: "v1.0.0"@,
            num_chunks: 1,
            filename: "language_classifier.tar.gz"@,
            name: "language classifier data file"@,
            subdirs: seq!["language_classifier"@],
        },
        DataComponent::All => ComponentSpec {
            version: "all"@,
            num_chunks: 0,
            filename: "all"@,
            name: "all components"@,
            subdirs: Seq::empty(),
        },
    }
}

/// Description of one data component.
#[derive(Debug, Clone)]
pub struct ComponentInfo {
    /// Version the component is installed at.
    pub version: String,
    /// Number of range requests its archive is fetched in.
    pub num_chunks: usize,
    /// Name of its archive.
    pub filename: String,
    /// Display name.
    pub name: String,
    /// Directories its archive fills.
    pub subdirs: Vec<String>,
}

impl ComponentInfo {
    /// The content of this description.
    pub open spec fn view(&self) -> ComponentSpec {
        ComponentSpec {
            version: self.version@,
            num_chunks: self.num_chunks as nat,
            filename: self.filename@,
            name: self.name@,
            subdirs: self.subdirs@.map_values(|s: String| s@),
        }
    }
}

/// A list of strings made from literals.
fn texts(items: &[&str]) -> (r: Vec<String>)
    ensures
        r@.map_values(|s: String| s@) == items@.map_values(|s: &str| s@),
{
    let mut out: Vec<String> = Vec::new();
    let mut i: usize = 0;
    while i < items.len()
        invariant
            0 <= i <= items@.len(),
            out@.map_values(|s: String| s@) == items@.subrange(0, i as int).map_values(
                |s: &str| s@,
            ),
        decreases items@.len() - i,
    {
        let ghost before = out@;
        let s = String::from_str(items[i]);
        out.push(s);
        assert(out@.map_values(|s: String| s@) =~= before.map_values(|s: String| s@).push(s@));
        assert(items@.subrange(0, i + 1).map_values(|s: &str| s@) =~= items@.subrange(
            0,
            i as int,
        ).map_values(|s: &str| s@).push(items@[i as int]@));
        i = i + 1;
    }
    assert(items@.subrange(0, items@.len() as int) =~= items@);
    out
}

/// Describes a data component.
pub fn get_component_info(component: DataComponent) -> (r: ComponentInfo)
    ensures
        r.view() == component_spec(component),
{
    let r = match component {
        DataComponent::Base => ComponentInfo {
            version: String::from_str("v1.0.0"),
            num_chunks: 1,
            filename: String::from_str("libpostal_data.tar.gz"),
            name: String::from_str("data file"),
            subdirs: texts(&["address_expansions", "numex", "transliteration"]),
        },
        DataComponent::Parser => ComponentInfo {
            version: String::from_str("v1.0.0"),
            num_chunks: 12,
            filename: String::from_str("parser.tar.gz"),
            name: String::from_str("parser data file"),
            subdirs: texts(&["address_parser"]),
        },
        DataComponent::LanguageClassifier => ComponentInfo {
            version: String::from_str("v1.0.0"),
            num_chunks: 1,
            filename: String::from_str("language_classifier.tar.gz"),
            name: String::from_str("language classifier data file"),
            subdirs: texts(&["language_classifier"]),
        },
        DataComponent::All => ComponentInfo {
            version: String::from_str("all"),
            num_chunks: 0,
            filename: String::from_str("all"),
            name: String::from_str("all components"),
            subdirs: Vec::new(),
        },
    };
    assert(r.view().subdirs =~= component_spec(component).subdirs);
    r
}

/// Name of the file, at the root of the data directory, that records the
/// installed version of a component.
pub open spec fn version_file_name(c: DataComponent) -> Seq<char> {
    match c {
        DataComponent::Base => "base_data_file_version"@,
        DataComponent::Parser => "parser_model_file_version"@,
        DataComponent::LanguageClassifier => "language_classifier_model_file_version"@,
        DataComponent::All => "data_version"@,
    }
}

/// Path of the version file of a component in `data_dir`.
pub fn get_version_file_path(component: DataComponent, data_dir: &str) -> (r: String)
    ensures
        r@ == path_join(data_dir@, version_file_name(component)),
{
    let name = match component {
        DataComponent::Base => "base_data_file_version",
        DataComponent::Parser => "parser_model_file_version",
        DataComponent::LanguageClassifier => "language_classifier_model_file_version",
        DataComponent::All => "data_version",
    };
    join_path(data_dir, name)
}

/// A component is up to date when its version file, read and trimmed, holds
/// exactly the component's version.
pub open spec fn up_to_date(c: DataComponent, recorded: Option<Seq<char>>) -> bool {
    recorded matches Some(text) && trim_of(text) == component_spec(c).version
}

/// Tells whether the version file content `recorded` (`None` where the file
/// is absent) shows the component installed at its current version.
pub fn check_component_version(component: DataComponent, recorded: Option<&str>) -> (r: bool)
    ensures
        r == up_to_date(
            component,
            match recorded {
                Some(t) => Some(t@),
                None => None,
            },
        ),
{
    match recorded {
        None => false,
        Some(text) => {
            let info = get_component_info(component);
            same_text(trim_text(text), info.version.as_str())
        },
    }
}

/// The components acquired, one after the other, when data is downloaded.
pub fn acquisition_order() -> (r: Vec<DataComponent>)
    ensures
        r@ == seq![DataComponent::Base, DataComponent::Parser, DataComponent::LanguageClassifier],
{
    let mut r: Vec<DataComponent> = Vec::new();
    r.push(DataComponent::Base);
    r.push(DataComponent::Parser);
    r.push(DataComponent::LanguageClassifier);
    assert(r@ =~= seq![DataComponent::Base, DataComponent::Parser, DataComponent::LanguageClassifier]);
    r
}

/// Progress of a download.
#[derive(Debug, Clone, Copy, PartialEq, Eq, Structural)]
pub struct DownloadProgress {
    /// Total bytes to download.
    pub total_bytes: u64,
    /// Bytes downloaded so far.
    pub downloaded_bytes: u64,
    /// Piece being downloaded.
    pub current_chunk: usize,
    /// Number of pieces.
    pub total_chunks: usize,
    /// Download speed in bytes per second.
    pub speed_bps: u64,
}

/// A published release asset.
#[derive(Debug, Clone)]
pub struct ReleaseAsset {
    /// Asset name.
    pub name: String,
    /// Where it is downloaded from.
    pub download_url: String,
    /// Size in bytes.
    pub size: u64,
}

/// What to do after looking at the data directory.
#[derive(Debug, Clone, Copy, PartialEq, Eq, Structural)]
pub struct EnsurePlan {
    /// Acquire the components first.
    pub acquire: bool,
    /// Verify the data files at the end.
    pub verify: bool,
}

/// Manages the data directory.
pub struct DataManager {
    data_dir: String,
    config: DataConfig,
}

impl DataManager {
    /// The data directory.
    pub closed spec fn dir(&self) -> Seq<char> {
        self.data_dir@
    }

    /// The configuration.
    pub closed spec fn conf(&self) -> DataConfig {
        self.config
    }

    /// A manager for the directory a probe resolves to, with the default
    /// configuration.
    pub fn new(probe: &DataDirProbe) -> (r: DataManager)
        ensures
            r.dir() == resolved_dir(*probe),
            r.conf().data_dir@ == resolved_dir(*probe),
            r.conf().auto_download,
            r.conf().verify_integrity,
            r.conf().chunk_size == CHUNK_SIZE,
    {
        let config = DataConfig::from_probe(probe);
        DataManager { data_dir: config.data_dir.clone(), config }
    }

    /// A manager for `data_dir`, with the default configuration.
    pub fn with_data_dir(data_dir: &str) -> (r: DataManager)
        ensures
            r.dir() == data_dir@,
            r.conf().data_dir@ == data_dir@,
            r.conf().auto_download,
            r.conf().verify_integrity,
            r.conf().chunk_size == CHUNK_SIZE,
    {
        DataManager { data_dir: data_dir.to_owned(), config: DataConfig::new(data_dir) }
    }

    /// A manager for the directory and with the settings of `config`.
    pub fn with_config(config: DataConfig) -> (r: DataManager)
        ensures
            r.dir() == config.data_dir@,
            r.conf() == config,
    {
        DataManager { data_dir: config.data_dir.clone(), config }
    }

    /// The data directory.
    pub fn data_dir(&self) -> (r: &str)
        ensures
            r@ == self.dir(),
    {
        self.data_dir.as_str()
    }

    /// The configuration.
    pub fn config(&self) -> (r: &DataConfig)
        ensures
            *r == self.conf(),
    {
        &self.config
    }

    /// Paths of the required files, in order, for a look at the directory.
    pub fn required_paths(&self) -> (r: Vec<String>)
        ensures
            r@.len() == REQUIRED_FILE_COUNT,
            forall|k: int|
                0 <= k < REQUIRED_FILE_COUNT ==> (#[trigger] r@[k])@ == path_join(
                    self.dir(),
                    required_file(k),
                ),
    {
        let mut out: Vec<String> = Vec::new();
        let mut k: usize = 0;
        while k < REQUIRED_FILE_COUNT
            invariant
                0 <= k <= REQUIRED_FILE_COUNT,
                out@.len() == k,
                forall|j: int|
                    0 <= j < k ==> (#[trigger] out@[j])@ == path_join(self.dir(), required_file(j)),
            decreases REQUIRED_FILE_COUNT - k,
        {
            out.push(join_path(self.data_dir.as_str(), required_file_text(k)));
            k = k + 1;
        }
        out
    }

    /// True exactly when the data is available: the directory exists and
    /// every required file is present and non-empty.
    pub fn is_data_available(&self, status: &DataDirStatus) -> (r: bool)
        ensures
            r == available(*status),
    {
        if !status.dir_exists {
            return false;
        }
        let mut k: usize = 0;
        while k < REQUIRED_FILE_COUNT
            invariant
                status.dir_exists,
                0 <= k <= REQUIRED_FILE_COUNT,
                forall|j: int| 0 <= j < k ==> #[trigger] file_ok(*status, j),
            decreases REQUIRED_FILE_COUNT - k,
        {
            if k >= status.file_sizes.len() {
                assert(!file_ok(*status, k as int));
                return false;
            }
            match status.file_sizes[k] {
                Some(n) => {
                    if n == 0 {
                        assert(!file_ok(*status, k as int));
                        return false;
                    }
                },
                None => {
                    assert(!file_ok(*status, k as int));
                    return false;
                },
            }
            k = k + 1;
        }
        true
    }

    /// Checks that every required file is present and non-empty, naming the
    /// first one that is not. This is no checksum verification.
    pub fn verify_data(&self, status: &DataDirStatus) -> (r: Result<(), Error>)
        ensures
            verify_outcome(*status, r),
    {
        if !status.dir_exists {
            let mut message = String::from_str("Missing data file: ");
            message.append(required_file_text(0));
            return Err(Error::data_error(message.as_str()));
        }
        let mut k: usize = 0;
        while k < REQUIRED_FILE_COUNT
            invariant
                status.dir_exists,
                0 <= k <= REQUIRED_FILE_COUNT,
                first_bad(*status) == first_bad_from(*status, k as int),
            decreases REQUIRED_FILE_COUNT - k,
        {
            let empty = k < status.file_sizes.len() && status.file_sizes[k].is_some();
            let good = match if k < status.file_sizes.len() {
                status.file_sizes[k]
            } else {
                None
            } {
                Some(n) => n > 0,
                None => false,
            };
            if !good {
                assert(!file_ok(*status, k as int));
                assert(first_bad(*status) == Some(k as int));
                let mut message = if empty {
                    String::from_str("Empty data file: ")
                } else {
                    String::from_str("Missing data file: ")
                };
                message.append(required_file_text(k));
                return Err(Error::data_error(message.as_str()));
            }
            k = k + 1;
        }
        Ok(())
    }

    /// Decides the first steps of making sure the data is there: acquire it
    /// when it is not available, which fails when downloads are disabled; and
    /// verify it at the end when the configuration asks for that.
    pub fn ensure_data_plan(&self, status: &DataDirStatus) -> (r: Result<EnsurePlan, Error>)
        ensures
            !available(*status) && !self.conf().auto_download ==> (r matches Err(
                Error::DataError { message },
            ) && message@ == "Data files not available and auto_download is disabled"@),
            available(*status) || self.conf().auto_download ==> r == Ok::<EnsurePlan, Error>(
                EnsurePlan { acquire: !available(*status), verify: self.conf().verify_integrity },
            ),
    {
        let acquire = !self.is_data_available(status);
        if acquire && !self.config.auto_download {
            return Err(Error::data_error("Data files not available and auto_download is disabled"));
        }
        Ok(EnsurePlan { acquire, verify: self.config.verify_integrity })
    }
}

} // verus!
