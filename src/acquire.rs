//! Acquisition of data components: what to fetch, how to split it into range
//! requests, when to retry, and how the pieces are put back together.

use vstd::prelude::*;
use vstd::string::*;
use vstd::arithmetic::power2::{pow2, lemma2_to64, lemma2_to64_rest, lemma_pow2_strictly_increases};
use crate::data::{
    component_spec, get_component_info, get_version_file_path, join_path, path_join,
    trim_end, trim_start, up_to_date, version_file_name, DataComponent, DataManager,
};
use crate::error::Error;
use crate::native::opt_view;
use crate::text::{decimal, decimal_text};

verus! {

/// What `Path::with_extension` makes of a path and an extension, as text.
pub uninterp spec fn path_with_extension(path: Seq<char>, ext: Seq<char>) -> Seq<char>;

/// An extension made of ASCII letters and digits only, which holds no path
/// separator.
pub open spec fn plain_extension(ext: Seq<char>) -> bool {
    forall|k: int|
        0 <= k < ext.len() ==> ('a' <= #[trigger] ext[k] <= 'z' || 'A' <= ext[k] <= 'Z' || '0'
            <= ext[k] <= '9')
}

/// Relies on `std::path::Path::with_extension`: the result depends on the two
/// texts alone; an extension without a path separator never makes it panic.
#[verifier::external_body]
fn with_extension(path: &str, ext: &str) -> (r: String)
    requires
        plain_extension(ext@),
    ensures
        r@ == path_with_extension(path@, ext@),
{
    std::path::Path::new(path).with_extension(ext).to_string_lossy().into_owned()
}

/// Where the archive of a component is published.
pub open spec fn release_url(c: DataComponent) -> Seq<char> {
    "https://github.com/openvenues/libpostal/releases/download/"@ + component_spec(c).version
        + "/"@ + component_spec(c).filename
}

/// The byte range `start..=end` of piece `index` of a multipart download.
#[derive(Debug, Clone, Copy, PartialEq, Eq, Structural)]
pub struct ChunkRange {
    /// Position of the piece, from 0.
    pub index: usize,
    /// First byte.
    pub start: u64,
    /// Last byte.
    pub end: u64,
}

/// The value of the `Range` header that asks for a byte range.
pub open spec fn range_header(start: u64, end: u64) -> Seq<char> {
    "bytes="@ + decimal(start as nat) + "-"@ + decimal(end as nat)
}

impl ChunkRange {
    /// The `Range` header that asks for this piece.
    pub fn header(&self) -> (r: String)
        ensures
            r@ == range_header(self.start, self.end),
    {
        let mut r = String::from_str("bytes=");
        let a = decimal_text(self.start);
        r.append(a.as_str());
        r.append("-");
        let b = decimal_text(self.end);
        r.append(b.as_str());
        r
    }
}

/// Piece `i` of a download split into pieces of `size` bytes.
pub open spec fn chunk_range(i: int, size: int) -> ChunkRange {
    ChunkRange { index: i as usize, start: (i * size) as u64, end: (i * size + size - 1) as u64 }
}

/// Where piece `i` of an archive is kept until the pieces are joined.
pub open spec fn chunk_path(archive: Seq<char>, i: int) -> Seq<char> {
    path_with_extension(archive, "part"@ + decimal((i + 1) as nat))
}

/// Everything needed to install one component.
///
/// Installation runs in this order: fetch the archive (in one request when
/// `chunks` is empty, else one range request per chunk, each kept at its
/// chunk path until all have arrived and are joined in index order), remove
/// the stale directories, extract the archive into the data directory,
/// remove the archive, and write `version` to the version file. The version
/// file is written last, so an interrupted installation is retried.
pub struct FetchPlan {
    /// Where the archive is published.
    pub url: String,
    /// Where the archive is stored.
    pub archive_path: String,
    /// The range requests of a multipart download; empty for a single request.
    pub chunks: Vec<ChunkRange>,
    /// Where each piece is kept, by index.
    pub chunk_paths: Vec<String>,
    /// Directories of the previous installation, removed before extraction.
    pub stale_dirs: Vec<String>,
    /// The version file of the component.
    pub version_file: String,
    /// The version written to it once the archive is extracted.
    pub version: String,
}

/// What acquiring one component takes.
pub enum ComponentPlan {
    /// The installed version is current: nothing is fetched.
    UpToDate,
    /// The component is fetched and installed.
    Fetch(FetchPlan),
}

/// Every character of a decimal rendering is a digit.
proof fn lemma_decimal_is_digits(n: nat)
    ensures
        forall|k: int| 0 <= k < decimal(n).len() ==> '0' <= #[trigger] decimal(n)[k] <= '9',
    decreases n,
{
    if n >= 10 {
        lemma_decimal_is_digits(n / 10);
        let d = decimal(n / 10);
        assert forall|k: int| 0 <= k < decimal(n).len() implies '0' <= #[trigger] decimal(n)[k]
            <= '9' by {
            if k < d.len() {
                assert(decimal(n)[k] == d[k]);
            }
        }
    }
}

/// The plan that installs component `c` into `dir`, fetching pieces of `size` bytes.
pub open spec fn fetch_plan_for(p: FetchPlan, c: DataComponent, dir: Seq<char>, size: int) -> bool {
    let info = component_spec(c);
    &&& p.url@ == release_url(c)
    &&& p.archive_path@ == path_join(dir, info.filename)
    &&& (if info.num_chunks > 1 {
        &&& p.chunks@.len() == info.num_chunks
        &&& forall|i: int| 0 <= i < info.num_chunks ==> #[trigger] p.chunks@[i] == chunk_range(i, size)
    } else {
        p.chunks@.len() == 0
    })
    &&& p.chunk_paths@.len() == p.chunks@.len()
    &&& forall|i: int|
        0 <= i < p.chunk_paths@.len() ==> (#[trigger] p.chunk_paths@[i])@ == chunk_path(
            p.archive_path@,
            i,
        )
    &&& p.stale_dirs@.len() == info.subdirs.len()
    &&& forall|i: int|
        0 <= i < info.subdirs.len() ==> (#[trigger] p.stale_dirs@[i])@ == path_join(
            dir,
            info.subdirs[i],
        )
    &&& p.version_file@ == path_join(dir, version_file_name(c))
    &&& p.version@ == info.version
}

/// The pieces of `n` ranges of `size` bytes.
fn chunk_ranges(n: usize, size: usize) -> (r: Vec<ChunkRange>)
    requires
        size >= 1,
        n * size <= u64::MAX,
    ensures
        r@.len() == n,
        forall|i: int| 0 <= i < n ==> #[trigger] r@[i] == chunk_range(i, size as int),
{
    let mut out: Vec<ChunkRange> = Vec::new();
    let mut i: usize = 0;
    while i < n
        invariant
            size >= 1,
            n * size <= u64::MAX,
            0 <= i <= n,
            out@.len() == i,
            forall|j: int| 0 <= j < i ==> #[trigger] out@[j] == chunk_range(j, size as int),
        decreases n - i,
    {
        assert((i + 1) * size <= n * size) by (nonlinear_arith)
            requires
                i < n,
        ;
        assert((i + 1) * size == i * size + size) by (nonlinear_arith);
        let start: u64 = (i as u64) * (size as u64);
        let end: u64 = start + (size as u64) - 1;
        out.push(ChunkRange { index: i, start, end });
        i = i + 1;
    }
    out
}

impl DataManager {
    /// Where the archive of `component` is published: the release base URL,
    /// then its version and its archive name.
    pub fn get_release_asset_url(&self, component: DataComponent) -> (r: String)
        ensures
            r@ == release_url(component),
    {
        let info = get_component_info(component);
        let mut url = String::from_str("https://github.com/openvenues/libpostal/releases/download/");
        url.append(info.version.as_str());
        url.append("/");
        url.append(info.filename.as_str());
        url
    }

    /// Plans the acquisition of `component`, given the content of its version
    /// file (`None` where the file is absent): nothing when the installed
    /// version is current, else the plan that fetches and installs it.
    pub fn plan_component(&self, component: DataComponent, recorded: Option<&str>) -> (r:
        ComponentPlan)
        requires
            component != DataComponent::All,
            self.conf().chunk_size >= 1,
            component_spec(component).num_chunks * self.conf().chunk_size <= u64::MAX,
        ensures
            up_to_date(
                component,
                match recorded {
                    Some(t) => Some(t@),
                    None => None,
                },
            ) ==> r is UpToDate,
            !up_to_date(
                component,
                match recorded {
                    Some(t) => Some(t@),
                    None => None,
                },
            ) ==> (r matches ComponentPlan::Fetch(p) && fetch_plan_for(
                p,
                component,
                self.dir(),
                self.conf().chunk_size as int,
            )),
    {
        if crate::data::check_component_version(component, recorded) {
            return ComponentPlan::UpToDate;
        }
        let info = get_component_info(component);
        let dir = self.data_dir();
        let url = self.get_release_asset_url(component);
        let archive_path = join_path(dir, info.filename.as_str());
        let chunks = if info.num_chunks > 1 {
            chunk_ranges(info.num_chunks, self.config().chunk_size)
        } else {
            Vec::new()
        };
        let mut chunk_paths: Vec<String> = Vec::new();
        let mut i: usize = 0;
        while i < chunks.len()
            invariant
                0 <= i <= chunks@.len(),
                chunks@.len() <= 12,
                chunk_paths@.len() == i,
                forall|j: int|
                    0 <= j < i ==> (#[trigger] chunk_paths@[j])@ == chunk_path(archive_path@, j),
            decreases chunks@.len() - i,
        {
            let mut ext = String::from_str("part");
            let digits = decimal_text((i + 1) as u64);
            ext.append(digits.as_str());
            proof {
                reveal_strlit("part");
                lemma_decimal_is_digits((i + 1) as nat);
                assert forall|k: int| 0 <= k < ext@.len() implies ('a' <= #[trigger] ext@[k] <= 'z'
                    || 'A' <= ext@[k] <= 'Z' || '0' <= ext@[k] <= '9') by {
                    if k >= 4 {
                        assert(ext@[k] == digits@[k - 4]);
                    }
                }
            }
            chunk_paths.push(with_extension(archive_path.as_str(), ext.as_str()));
            i = i + 1;
        }
        let mut stale_dirs: Vec<String> = Vec::new();
        let mut k: usize = 0;
        while k < info.subdirs.len()
            invariant
                info.view() == component_spec(component),
                dir@ == self.dir(),
                0 <= k <= info.subdirs@.len(),
                stale_dirs@.len() == k,
                forall|j: int|
                    0 <= j < k ==> (#[trigger] stale_dirs@[j])@ == path_join(
                        self.dir(),
                        component_spec(component).subdirs[j],
                    ),
            decreases info.subdirs@.len() - k,
        {
            assert(info.view().subdirs[k as int] == info.subdirs@[k as int]@);
            stale_dirs.push(join_path(dir, info.subdirs[k].as_str()));
            k = k + 1;
        }
        let plan = FetchPlan {
            url,
            archive_path,
            chunks,
            chunk_paths,
            stale_dirs,
            version_file: get_version_file_path(component, dir),
            version: info.version,
        };
        ComponentPlan::Fetch(plan)
    }
}

/// The version written at the end of an installation is read back as current:
/// acquiring a component again right after it was installed fetches nothing.
pub proof fn lemma_reacquire_is_noop(c: DataComponent)
    requires
        c != DataComponent::All,
    ensures
        up_to_date(c, Some(component_spec(c).version)),
{
    let v = component_spec(c).version;
    reveal_strlit("v1.0.0");
    assert(v.len() > 0 && !crate::data::is_white_space(v[0]));
    assert(trim_start(v) == v);
    assert(!crate::data::is_white_space(v.last()));
    assert(trim_end(v) == v);
}

/// Component `k` of the acquisition order.
pub open spec fn acquired_component(k: int) -> DataComponent {
    if k == 0 {
        DataComponent::Base
    } else if k == 1 {
        DataComponent::Parser
    } else {
        DataComponent::LanguageClassifier
    }
}

impl DataManager {
    /// Plans the acquisition of every component, in acquisition order, from
    /// the contents of their version files (`None` where a file is absent):
    /// each component is fetched exactly when its installed version is not
    /// current, so a plan of only `UpToDate` makes no network request.
    pub fn plan_acquisition(&self, recorded: &Vec<Option<String>>) -> (r: Vec<ComponentPlan>)
        requires
            recorded@.len() == 3,
            self.conf().chunk_size >= 1,
            12 * self.conf().chunk_size <= u64::MAX,
        ensures
            r@.len() == 3,
            forall|k: int|
                0 <= k < 3 ==> (up_to_date(acquired_component(k), opt_view(recorded@[k]))
                    <==> (#[trigger] r@[k]) is UpToDate),
            forall|k: int|
                0 <= k < 3 ==> ((#[trigger] r@[k]) matches ComponentPlan::Fetch(p)
                    ==> fetch_plan_for(
                    p,
                    acquired_component(k),
                    self.dir(),
                    self.conf().chunk_size as int,
                )),
    {
        let order = crate::data::acquisition_order();
        let mut plans: Vec<ComponentPlan> = Vec::new();
        let mut k: usize = 0;
        while k < 3
            invariant
                order@ == seq![DataComponent::Base, DataComponent::Parser, DataComponent::LanguageClassifier],
                recorded@.len() == 3,
                self.conf().chunk_size >= 1,
                12 * self.conf().chunk_size <= u64::MAX,
                0 <= k <= 3,
                plans@.len() == k,
                forall|j: int|
                    0 <= j < k ==> (up_to_date(acquired_component(j), opt_view(recorded@[j]))
                        <==> (#[trigger] plans@[j]) is UpToDate),
                forall|j: int|
                    0 <= j < k ==> ((#[trigger] plans@[j]) matches ComponentPlan::Fetch(p)
                        ==> fetch_plan_for(
                        p,
                        acquired_component(j),
                        self.dir(),
                        self.conf().chunk_size as int,
                    )),
            decreases 3 - k,
        {
            let component = order[k];
            assert(component == acquired_component(k as int));
            let text: Option<&str> = match &recorded[k] {
                Some(t) => Some(t.as_str()),
                None => None,
            };
            assert(component_spec(component).num_chunks <= 12);
            assert(component_spec(component).num_chunks * self.conf().chunk_size <= u64::MAX)
                by (nonlinear_arith)
                requires
                    component_spec(component).num_chunks <= 12,
                    12 * self.conf().chunk_size <= u64::MAX,
            ;
            let plan = self.plan_component(component, text);
            plans.push(plan);
            k = k + 1;
        }
        plans
    }
}

/// Acquisition is idempotent: once every component has been installed, each
/// version file holds the version it was installed at, and acquiring again
/// plans no fetch for any component, so it makes no network request.
pub proof fn lemma_acquisition_idempotent(recorded: Seq<Option<Seq<char>>>)
    requires
        recorded.len() == 3,
        forall|k: int|
            0 <= k < 3 ==> #[trigger] recorded[k] == Some(
                component_spec(acquired_component(k)).version,
            ),
    ensures
        forall|k: int| 0 <= k < 3 ==> up_to_date(acquired_component(k), #[trigger] recorded[k]),
{
    assert forall|k: int| 0 <= k < 3 implies up_to_date(
        acquired_component(k),
        #[trigger] recorded[k],
    ) by {
        lemma_reacquire_is_noop(acquired_component(k));
    }
}

/// A response status that carries the requested content.
pub open spec fn status_accepted(status: u16) -> bool {
    status == 200 || status == 206
}

/// Tells whether a response status carries the requested content: 200 for a
/// whole resource, 206 for a range.
pub fn is_accepted_status(status: u16) -> (r: bool)
    ensures
        r == status_accepted(status),
{
    status == 200 || status == 206
}

/// What came of one range request.
#[derive(Debug, Clone, Copy, PartialEq, Eq, Structural)]
pub enum ChunkEvent {
    /// A response arrived with this status.
    Response(u16),
    /// The request failed before a response arrived.
    TransportError,
}

/// What to do next for one piece.
#[derive(Debug, Clone, Copy, PartialEq, Eq, Structural)]
pub enum ChunkAction {
    /// Keep the body of the response: the piece is done.
    Store,
    /// The piece has failed, and with it the component.
    Fail,
    /// Wait `delay_seconds`, then try again with `failures` failed attempts.
    RetryAfter { failures: usize, delay_seconds: u64 },
}

/// The wait before the next attempt after `failures` failed attempts: two to
/// the power `failures` seconds, capped at the largest `u64`.
pub open spec fn backoff_seconds(failures: nat) -> u64 {
    if failures >= 64 {
        u64::MAX
    } else {
        pow2(failures) as u64
    }
}

/// Computes the wait before the next attempt.
pub fn backoff(failures: usize) -> (r: u64)
    ensures
        r == backoff_seconds(failures as nat),
{
    if failures >= 64 {
        return u64::MAX;
    }
    let mut d: u64 = 1;
    let mut i: usize = 0;
    proof {
        lemma2_to64();
        lemma2_to64_rest();
    }
    while i < failures
        invariant
            failures < 64,
            0 <= i <= failures,
            d == pow2(i as nat),
        decreases failures - i,
    {
        proof {
            if i < 62 {
                lemma_pow2_strictly_increases(i as nat, 62);
            }
            lemma2_to64();
            lemma2_to64_rest();
        }
        assert(pow2((i + 1) as nat) == 2 * pow2(i as nat)) by {
            vstd::arithmetic::power2::lemma_pow2_unfold((i + 1) as nat);
        }
        assert(d <= 0x4000_0000_0000_0000u64);
        d = d * 2;
        i = i + 1;
    }
    proof {
        lemma_pow2_strictly_increases(failures as nat, 64);
        lemma2_to64();
        lemma2_to64_rest();
    }
    d
}

/// An attempt is made while fewer than `max_retries` attempts have failed.
pub fn should_attempt(failures: usize, max_retries: usize) -> (r: bool)
    ensures
        r == (failures < max_retries),
{
    failures < max_retries
}

/// Decides what follows an attempt on a piece after `failures` earlier
/// failed attempts: a response with status 200 or 206 is kept, any other
/// response fails the piece at once, and a transport failure is retried
/// after an exponential backoff unless it was the last allowed attempt.
pub fn next_chunk_action(failures: usize, max_retries: usize, event: ChunkEvent) -> (r:
    ChunkAction)
    requires
        failures < max_retries,
    ensures
        event matches ChunkEvent::Response(s) ==> (status_accepted(s) ==> r == ChunkAction::Store)
            && (!status_accepted(s) ==> r == ChunkAction::Fail),
        event is TransportError && failures + 1 >= max_retries ==> r == ChunkAction::Fail,
        event is TransportError && failures + 1 < max_retries ==> r == (ChunkAction::RetryAfter {
            failures: (failures + 1) as usize,
            delay_seconds: backoff_seconds((failures + 1) as nat),
        }),
{
    match event {
        ChunkEvent::Response(status) => {
            if is_accepted_status(status) {
                ChunkAction::Store
            } else {
                ChunkAction::Fail
            }
        },
        ChunkEvent::TransportError => {
            let failed = failures + 1;
            if failed >= max_retries {
                ChunkAction::Fail
            } else {
                ChunkAction::RetryAfter { failures: failed, delay_seconds: backoff(failed) }
            }
        },
    }
}

/// The bytes of the pieces joined in index order; a missing piece adds nothing.
pub open spec fn joined(parts: Seq<Option<Seq<u8>>>) -> Seq<u8>
    decreases parts.len(),
{
    if parts.len() == 0 {
        Seq::empty()
    } else {
        joined(parts.drop_last()) + match parts.last() {
            Some(b) => b,
            None => Seq::empty(),
        }
    }
}

/// The bytes of the given pieces joined in index order.
pub open spec fn concat_all(data: Seq<Seq<u8>>) -> Seq<u8> {
    joined(data.map_values(|b: Seq<u8>| Some(b)))
}

/// Every piece has arrived.
pub open spec fn all_present(parts: Seq<Option<Seq<u8>>>) -> bool {
    forall|i: int| 0 <= i < parts.len() ==> (#[trigger] parts[i]) is Some
}

/// The pieces of a multipart download, kept by index as they arrive in any order.
pub struct ChunkAssembler {
    parts: Vec<Option<Vec<u8>>>,
}

impl ChunkAssembler {
    /// The pieces that have arrived, by index.
    pub closed spec fn slots(&self) -> Seq<Option<Seq<u8>>> {
        self.parts@.map_values(|p: Option<Vec<u8>>| match p {
            Some(b) => Some(b@),
            None => None,
        })
    }

    /// An assembler for `n` pieces, none of which has arrived.
    pub fn new(n: usize) -> (r: ChunkAssembler)
        ensures
            r.slots() == Seq::new(n as nat, |i: int| None::<Seq<u8>>),
    {
        let mut parts: Vec<Option<Vec<u8>>> = Vec::new();
        let mut i: usize = 0;
        while i < n
            invariant
                0 <= i <= n,
                parts@.len() == i,
                forall|j: int| 0 <= j < i ==> (#[trigger] parts@[j]) is None,
            decreases n - i,
        {
            parts.push(None);
            i = i + 1;
        }
        let r = ChunkAssembler { parts };
        assert(r.slots() =~= Seq::new(n as nat, |i: int| None::<Seq<u8>>));
        r
    }

    /// The number of pieces.
    pub fn len(&self) -> (r: usize)
        ensures
            r == self.slots().len(),
    {
        self.parts.len()
    }

    /// Keeps the body of piece `index`.
    pub fn record(&mut self, index: usize, bytes: Vec<u8>)
        requires
            index < old(self).slots().len(),
        ensures
            final(self).slots() == old(self).slots().update(index as int, Some(bytes@)),
    {
        let ghost b = bytes@;
        self.parts.set(index, Some(bytes));
        assert(self.slots() =~= old(self).slots().update(index as int, Some(b)));
    }

    /// True when every piece has arrived.
    pub fn is_complete(&self) -> (r: bool)
        ensures
            r == all_present(self.slots()),
    {
        let mut i: usize = 0;
        while i < self.parts.len()
            invariant
                0 <= i <= self.parts@.len(),
                forall|j: int| 0 <= j < i ==> (#[trigger] self.slots()[j]) is Some,
            decreases self.parts@.len() - i,
        {
            if self.parts[i].is_none() {
                assert(self.slots()[i as int] is None);
                return false;
            }
            i = i + 1;
        }
        true
    }

    /// The archive: the pieces joined in index order, once all have arrived.
    pub fn assemble(&self) -> (r: Option<Vec<u8>>)
        ensures
            !all_present(self.slots()) ==> r is None,
            all_present(self.slots()) ==> (r matches Some(v) && v@ == joined(self.slots())),
    {
        if !self.is_complete() {
            return None;
        }
        let mut out: Vec<u8> = Vec::new();
        let mut i: usize = 0;
        while i < self.parts.len()
            invariant
                0 <= i <= self.parts@.len(),
                out@ == joined(self.slots().subrange(0, i as int)),
            decreases self.parts@.len() - i,
        {
            assert(self.slots().subrange(0, i + 1).drop_last() =~= self.slots().subrange(
                0,
                i as int,
            ));
            if let Some(part) = &self.parts[i] {
                let mut j: usize = 0;
                let ghost start = out@;
                while j < part.len()
                    invariant
                        0 <= j <= part@.len(),
                        out@ == start + part@.subrange(0, j as int),
                    decreases part@.len() - j,
                {
                    out.push(part[j]);
                    assert(part@.subrange(0, j + 1) =~= part@.subrange(0, j as int).push(part@[j as int]));
                    j = j + 1;
                }
                assert(part@.subrange(0, part@.len() as int) =~= part@);
            } else {
                assert(out@ =~= out@ + Seq::<u8>::empty());
            }
            i = i + 1;
        }
        assert(self.slots().subrange(0, self.slots().len() as int) =~= self.slots());
        Some(out)
    }
}

/// The pieces after recording, one after the other, piece `order[j]` with
/// body `data[order[j]]`.
pub open spec fn record_all(
    slots: Seq<Option<Seq<u8>>>,
    order: Seq<int>,
    data: Seq<Seq<u8>>,
) -> Seq<Option<Seq<u8>>>
    decreases order.len(),
{
    if order.len() == 0 {
        slots
    } else {
        let k = order.last();
        record_all(slots, order.drop_last(), data).update(k, Some(data[k]))
    }
}

proof fn lemma_record_all_slot(n: nat, order: Seq<int>, data: Seq<Seq<u8>>, k: int)
    requires
        forall|j: int| 0 <= j < order.len() ==> 0 <= #[trigger] order[j] < n,
        0 <= k < n,
    ensures
        record_all(Seq::new(n, |i: int| None::<Seq<u8>>), order, data).len() == n,
        record_all(Seq::new(n, |i: int| None::<Seq<u8>>), order, data)[k] == if order.contains(k) {
            Some(data[k])
        } else {
            None
        },
    decreases order.len(),
{
    if order.len() > 0 {
        let prefix = order.drop_last();
        assert forall|j: int| 0 <= j < prefix.len() implies 0 <= #[trigger] prefix[j] < n by {
            assert(prefix[j] == order[j]);
        }
        lemma_record_all_slot(n, prefix, data, k);
        if order.last() != k {
            if order.contains(k) {
                let j = choose|j: int| 0 <= j < order.len() && order[j] == k;
                assert(j != order.len() - 1);
                assert(prefix[j] == k);
            }
            if prefix.contains(k) {
                let j = choose|j: int| 0 <= j < prefix.len() && prefix[j] == k;
                assert(order[j] == k);
            }
        } else {
            assert(order[order.len() - 1] == k);
        }
    }
}

/// Reassembly does not depend on arrival order: whatever order the `n` pieces
/// arrive in, once each has arrived the archive is the pieces joined in index
/// order.
pub proof fn lemma_reassembly_order_free(data: Seq<Seq<u8>>, order: Seq<int>)
    requires
        forall|j: int| 0 <= j < order.len() ==> 0 <= #[trigger] order[j] < data.len(),
        forall|k: int| 0 <= k < data.len() ==> #[trigger] order.contains(k),
    ensures
        all_present(record_all(Seq::new(data.len(), |i: int| None::<Seq<u8>>), order, data)),
        joined(record_all(Seq::new(data.len(), |i: int| None::<Seq<u8>>), order, data))
            == concat_all(data),
{
    let slots = record_all(Seq::new(data.len(), |i: int| None::<Seq<u8>>), order, data);
    assert forall|k: int| 0 <= k < data.len() implies #[trigger] slots[k] == Some(data[k]) by {
        lemma_record_all_slot(data.len(), order, data, k);
    }
    if data.len() > 0 {
        lemma_record_all_slot(data.len(), order, data, 0);
    } else if order.len() > 0 {
        assert(0 <= order[0] < data.len());
    }
    assert(slots =~= data.map_values(|b: Seq<u8>| Some(b)));
}

/// Failure messages joined with `; `, in order.
pub open spec fn joined_messages(ms: Seq<Seq<char>>) -> Seq<char>
    decreases ms.len(),
{
    if ms.len() == 0 {
        Seq::empty()
    } else if ms.len() == 1 {
        ms[0]
    } else {
        joined_messages(ms.drop_last()) + "; "@ + ms.last()
    }
}

/// The message reported once every data source has failed.
pub open spec fn all_failed_message(ms: Seq<Seq<char>>) -> Seq<char> {
    "All data sources failed: "@ + joined_messages(ms)
}

/// What to do after one data source was tried.
pub enum FallbackStep {
    /// The source delivered the data: stop.
    Done,
    /// Try the source at this position next.
    Next(usize),
    /// Every source failed; this error names each failure.
    Failed(Error),
}

/// Data sources tried in a fixed order until one succeeds: a failure is kept
/// only to be reported if every source fails.
pub struct FallbackChain {
    sources: usize,
    failures: Vec<String>,
}

impl FallbackChain {
    /// Number of sources.
    pub closed spec fn source_count(&self) -> nat {
        self.sources as nat
    }

    /// Messages of the sources that failed so far, in order.
    pub closed spec fn failures(&self) -> Seq<Seq<char>> {
        self.failures@.map_values(|m: String| m@)
    }

    /// A chain over `sources` sources, none tried yet.
    pub fn new(sources: usize) -> (r: FallbackChain)
        ensures
            r.source_count() == sources,
            r.failures().len() == 0,
    {
        let r = FallbackChain { sources, failures: Vec::new() };
        assert(r.failures() =~= Seq::<Seq<char>>::empty());
        r
    }

    /// Records the outcome of the source at position `failures().len()`:
    /// success ends the chain; a failure moves on to the next source, or, after
    /// the last one, yields a data error that names every failure in order.
    pub fn record(&mut self, outcome: Result<(), Error>) -> (r: FallbackStep)
        requires
            old(self).failures().len() < old(self).source_count(),
        ensures
            final(self).source_count() == old(self).source_count(),
            outcome is Ok ==> r is Done && final(self).failures() == old(self).failures(),
            outcome is Err ==> final(self).failures() == old(self).failures().push(
                outcome->Err_0.message_view(),
            ),
            outcome is Err && final(self).failures().len() < final(self).source_count() ==> r
                == FallbackStep::Next(final(self).failures().len() as usize),
            outcome is Err && final(self).failures().len() == final(self).source_count() ==> (r
                matches FallbackStep::Failed(Error::DataError { message }) && message@
                == all_failed_message(final(self).failures())),
    {
        match outcome {
            Ok(()) => FallbackStep::Done,
            Err(e) => {
                let ghost before = self.failures();
                let m = e.message().to_owned();
                self.failures.push(m);
                assert(self.failures() =~= before.push(e.message_view()));
                if self.failures.len() < self.sources {
                    FallbackStep::Next(self.failures.len())
                } else {
                    let mut message = String::from_str("All data sources failed: ");
                    let mut i: usize = 0;
                    while i < self.failures.len()
                        invariant
                            0 <= i <= self.failures@.len(),
                            message@ == "All data sources failed: "@ + joined_messages(
                                self.failures().subrange(0, i as int),
                            ),
                        decreases self.failures@.len() - i,
                    {
                        let ghost f = self.failures();
                        assert(f.subrange(0, i + 1).drop_last() =~= f.subrange(0, i as int));
                        if i > 0 {
                            message.append("; ");
                        } else {
                            assert(f.subrange(0, 1) =~= seq![f[0]]);
                            assert(f.subrange(0, 0) =~= Seq::<Seq<char>>::empty());
                        }
                        message.append(self.failures[i].as_str());
                        assert(message@ =~= "All data sources failed: "@ + joined_messages(
                            f.subrange(0, i + 1),
                        ));
                        i = i + 1;
                    }
                    assert(self.failures().subrange(0, self.failures@.len() as int)
                        =~= self.failures());
                    FallbackStep::Failed(Error::data_error(message.as_str()))
                }
            },
        }
    }
}

} // verus!
