//! The image catalog: reading the LXD index, choosing the newest image for a
//! distribution, version and architecture, and the local cache layout under
//! the images root.
use vstd::prelude::*;
use chrono::{Datelike, Timelike};
use crate::error::Error;
use crate::text::{chars_of, extend, join_path, same_chars, split, split_on, str_eq, string_of, views};
use crate::user::User;

verus! {

/// When an image was uploaded, to the minute.
#[derive(Copy, Clone, Debug, PartialEq, Eq, Structural)]
pub struct UploadTime {
    pub year: i32,
    pub month: u32,
    pub day: u32,
    pub hour: u32,
    pub minute: u32,
}

/// `a` is no later than `b`: the fields compared in order, year first.
pub open spec fn time_le(a: UploadTime, b: UploadTime) -> bool {
    if a.year != b.year {
        a.year < b.year
    } else if a.month != b.month {
        a.month < b.month
    } else if a.day != b.day {
        a.day < b.day
    } else if a.hour != b.hour {
        a.hour < b.hour
    } else {
        a.minute <= b.minute
    }
}

/// `a` is no later than `b`.
pub fn not_later(a: &UploadTime, b: &UploadTime) -> (r: bool)
    ensures
        r == time_le(*a, *b),
{
    if a.year != b.year {
        a.year < b.year
    } else if a.month != b.month {
        a.month < b.month
    } else if a.day != b.day {
        a.day < b.day
    } else if a.hour != b.hour {
        a.hour < b.hour
    } else {
        a.minute <= b.minute
    }
}

/// The fields (year, month, day, hour, minute) that chrono reads from an index timestamp.
pub uninterp spec fn upload_time_of(s: Seq<char>) -> Option<(i32, u32, u32, u32, u32)>;

/// The upload time with the fields `f`.
pub open spec fn time_from_fields(f: (i32, u32, u32, u32, u32)) -> UploadTime {
    UploadTime { year: f.0, month: f.1, day: f.2, hour: f.3, minute: f.4 }
}

/// Relies on chrono::NaiveDateTime::parse_from_str with the format
/// `%Y%m%d_%H:%M`, and on chrono's field getters: the date and time that the
/// timestamp `s` writes, or `None` where it is not one.
#[verifier::external_body]
fn parse_time(s: &str) -> (r: Option<UploadTime>)
    ensures
        match r {
            Some(t) => upload_time_of(s@) == Some((t.year, t.month, t.day, t.hour, t.minute)),
            None => upload_time_of(s@).is_none(),
        },
{
    match chrono::NaiveDateTime::parse_from_str(s, "%Y%m%d_%H:%M") {
        Ok(t) => Some(
            UploadTime {
                year: t.year(),
                month: t.month(),
                day: t.day(),
                hour: t.hour(),
                minute: t.minute(),
            },
        ),
        Err(_) => None,
    }
}

/// Whether an index line has the shape of a record.
pub uninterp spec fn is_index_record(line: Seq<char>) -> bool;

/// Relies on regex::Regex::new and Regex::is_match: whether `line` matches
/// `^(.+;){5}(/.+){6}/$`, five `;`-terminated fields and a path.
#[verifier::external_body]
fn matches_index_record(line: &str) -> (r: bool)
    ensures
        r == is_index_record(line@),
{
    match regex::Regex::new(r"^(.+;){5}(/.+){6}/$") {
        Ok(re) => re.is_match(line),
        Err(_) => false,
    }
}

/// One image of the catalog.
#[derive(Debug)]
pub struct ImageMeta {
    pub distribution: String,
    pub version: String,
    pub arch: String,
    pub time: UploadTime,
    pub path: String,
}

pub ghost struct ImageMetaView {
    pub distribution: Seq<char>,
    pub version: Seq<char>,
    pub arch: Seq<char>,
    pub time: UploadTime,
    pub path: Seq<char>,
}

impl View for ImageMeta {
    type V = ImageMetaView;

    open spec fn view(&self) -> ImageMetaView {
        ImageMetaView {
            distribution: self.distribution@,
            version: self.version@,
            arch: self.arch@,
            time: self.time,
            path: self.path@,
        }
    }
}

pub open spec fn meta_views(v: Seq<ImageMeta>) -> Seq<ImageMetaView> {
    v.map_values(|m: ImageMeta| m@)
}

/// The image that one index line describes, where it is a record of the
/// default variant of `(d, v, a)` with a readable timestamp.
pub open spec fn index_entry(line: Seq<char>, d: Seq<char>, v: Seq<char>, a: Seq<char>) -> Option<
    ImageMetaView,
> {
    let f = split(line, ';');
    if is_index_record(line) && f.len() >= 6 && f[0] == d && f[1] == v && f[2] == a && f[3]
        == "default"@ {
        match upload_time_of(f[4]) {
            Some(t) => Some(
                ImageMetaView {
                    distribution: f[0],
                    version: f[1],
                    arch: f[2],
                    time: time_from_fields(t),
                    path: f[5],
                },
            ),
            None => None,
        }
    } else {
        None
    }
}

/// The images that the index lines `lines` describe for `(d, v, a)`, in order.
pub open spec fn index_entries(lines: Seq<Seq<char>>, d: Seq<char>, v: Seq<char>, a: Seq<char>) -> Seq<
    ImageMetaView,
>
    decreases lines.len(),
{
    if lines.len() == 0 {
        seq![]
    } else {
        let prev = index_entries(lines.drop_last(), d, v, a);
        match index_entry(lines.last(), d, v, a) {
            Some(e) => prev.push(e),
            None => prev,
        }
    }
}

/// The image that one index line describes for `(d, v, a)`.
fn read_index_line(line: &Vec<char>, d: &Vec<char>, v: &Vec<char>, a: &Vec<char>) -> (r: Option<
    ImageMeta,
>)
    ensures
        match r {
            Some(m) => index_entry(line@, d@, v@, a@) == Some(m@),
            None => index_entry(line@, d@, v@, a@).is_none(),
        },
{
    let ls = string_of(line);
    if !matches_index_record(ls.as_str()) {
        return None;
    }
    let f = split_on(line, ';');
    if f.len() < 6 {
        return None;
    }
    assert(views(f@)[0] == f@[0]@ && views(f@)[1] == f@[1]@ && views(f@)[2] == f@[2]@);
    assert(views(f@)[3] == f@[3]@ && views(f@)[4] == f@[4]@ && views(f@)[5] == f@[5]@);
    if !same_chars(&f[0], d) || !same_chars(&f[1], v) || !same_chars(&f[2], a) || !same_chars(
        &f[3],
        &chars_of("default"),
    ) {
        return None;
    }
    let ts = string_of(&f[4]);
    match parse_time(ts.as_str()) {
        Some(t) => Some(
            ImageMeta {
                distribution: string_of(&f[0]),
                version: string_of(&f[1]),
                arch: string_of(&f[2]),
                time: t,
                path: string_of(&f[5]),
            },
        ),
        None => None,
    }
}

/// The images of the catalog index `index` for the distribution
/// `distribution`, version `version` and architecture `arch`, default
/// variant only, in index order. Lines that are not records, and records
/// whose timestamp cannot be read, are skipped.
pub fn parse_index(index: &str, distribution: &str, version: &str, arch: &str) -> (r: Vec<ImageMeta>)
    ensures
        meta_views(r@) == index_entries(split(index@, '\n'), distribution@, version@, arch@),
{
    let lines = split_on(&chars_of(index), '\n');
    let d = chars_of(distribution);
    let v = chars_of(version);
    let a = chars_of(arch);
    let ghost all = split(index@, '\n');
    let mut r: Vec<ImageMeta> = Vec::new();
    let mut i: usize = 0;
    while i < lines.len()
        invariant
            i <= lines@.len(),
            views(lines@) == all,
            d@ == distribution@,
            v@ == version@,
            a@ == arch@,
            meta_views(r@) == index_entries(all.subrange(0, i as int), d@, v@, a@),
        decreases lines@.len() - i,
    {
        let ghost next = all.subrange(0, i + 1);
        assert(next.drop_last() =~= all.subrange(0, i as int));
        assert(next.last() == lines@[i as int]@);
        match read_index_line(&lines[i], &d, &v, &a) {
            Some(m) => {
                let ghost prev = r@;
                r.push(m);
                assert(meta_views(r@) =~= meta_views(prev).push(m@));
            },
            None => {},
        }
        i = i + 1;
    }
    assert(all.subrange(0, lines@.len() as int) =~= all);
    r
}

/// Every image that the index gives for `(d, v, a)` is of that distribution,
/// version and architecture, and comes from a record of the default variant.
pub proof fn index_filter(lines: Seq<Seq<char>>, d: Seq<char>, v: Seq<char>, a: Seq<char>)
    ensures
        forall|i: int|
            0 <= i < index_entries(lines, d, v, a).len() ==> {
                let e = #[trigger] index_entries(lines, d, v, a)[i];
                &&& e.distribution == d
                &&& e.version == v
                &&& e.arch == a
                &&& exists|j: int|
                    0 <= j < lines.len() && index_entry(#[trigger] lines[j], d, v, a) == Some(e)
                        && split(lines[j], ';')[3] == "default"@
            },
    decreases lines.len(),
{
    if lines.len() > 0 {
        let pre = lines.drop_last();
        index_filter(pre, d, v, a);
        let es = index_entries(lines, d, v, a);
        assert forall|i: int| 0 <= i < es.len() implies {
            let e = #[trigger] es[i];
            &&& e.distribution == d
            &&& e.version == v
            &&& e.arch == a
            &&& exists|j: int|
                0 <= j < lines.len() && index_entry(#[trigger] lines[j], d, v, a) == Some(e)
                    && split(lines[j], ';')[3] == "default"@
        } by {
            let pes = index_entries(pre, d, v, a);
            if i < pes.len() {
                assert(es[i] == pes[i]);
                let j = choose|j: int|
                    0 <= j < pre.len() && index_entry(#[trigger] pre[j], d, v, a) == Some(pes[i])
                        && split(pre[j], ';')[3] == "default"@;
                assert(lines[j] == pre[j]);
            } else {
                let j = lines.len() - 1;
                assert(lines[j] == lines.last());
            }
        }
    }
}

/// The newest of `entries`: one whose time is no earlier than any other's,
/// the last such in order; `None` where there is none.
pub fn newest(entries: &Vec<ImageMeta>) -> (r: Option<usize>)
    ensures
        match r {
            None => entries@.len() == 0,
            Some(i) => {
                &&& i < entries@.len()
                &&& forall|j: int|
                    0 <= j < entries@.len() ==> time_le(#[trigger] entries@[j].time, entries@[i as int].time)
                &&& forall|j: int|
                    i < j < entries@.len() ==> !time_le(entries@[i as int].time, #[trigger] entries@[j].time)
            },
        },
{
    if entries.len() == 0 {
        return None;
    }
    let mut best: usize = 0;
    let mut i: usize = 1;
    while i < entries.len()
        invariant
            1 <= i <= entries@.len(),
            best < i,
            forall|j: int| 0 <= j < i ==> time_le(#[trigger] entries@[j].time, entries@[best as int].time),
            forall|j: int| best < j < i ==> !time_le(entries@[best as int].time, #[trigger] entries@[j].time),
        decreases entries@.len() - i,
    {
        if not_later(&entries[best].time, &entries[i].time) {
            best = i;
        }
        i = i + 1;
    }
    Some(best)
}

/// The path of the newest image of `entries` (the last of the newest, on
/// ties); `ImageMetaNotFound` where there is none.
pub fn newest_url(entries: &Vec<ImageMeta>) -> (r: Result<String, Error>)
    ensures
        match r {
            Ok(p) => exists|i: int|
                0 <= i < entries@.len() && p@ == entries@[i].path@ && (forall|j: int|
                    0 <= j < entries@.len() ==> time_le(#[trigger] entries@[j].time, entries@[i].time))
                    && (forall|j: int|
                    i < j < entries@.len() ==> !time_le(entries@[i].time, #[trigger] entries@[j].time)),
            Err(e) => e == Error::ImageMetaNotFound && entries@.len() == 0,
        },
{
    match newest(entries) {
        Some(i) => Ok(string_of(&chars_of(entries[i].path.as_str()))),
        None => Err(Error::ImageMetaNotFound),
    }
}

/// The local image is current: its stored signature equals the newest remote
/// one. A missing local signature is never current.
pub fn is_current(local_hash: Option<&str>, remote_hash: &str) -> (r: bool)
    ensures
        r == match local_hash {
            Some(l) => l@ == remote_hash@,
            None => false,
        },
{
    match local_hash {
        Some(l) => str_eq(l, remote_hash),
        None => false,
    }
}

pub const ROOTFS_SERVER_DOMAIN: &'static str = "https://us.lxd.images.canonical.com";

pub const IMAGE_META_URL: &'static str = "https://uk.lxd.images.canonical.com/meta/1.0/index-user";

/// The address of the file `file` of the image at `path` on the image server.
pub open spec fn artifact_url(path: Seq<char>, file: Seq<char>) -> Seq<char> {
    "https://us.lxd.images.canonical.com"@ + "/"@ + path + "/"@ + file
}

/// The address of the file `file` (`rootfs.tar.xz` or its `.asc`) of the image at `path`.
pub fn image_file_url(path: &str, file: &str) -> (r: String)
    ensures
        r@ == artifact_url(path@, file@),
{
    let mut v = chars_of("https://us.lxd.images.canonical.com");
    extend(&mut v, &chars_of("/"));
    extend(&mut v, &chars_of(path));
    extend(&mut v, &chars_of("/"));
    extend(&mut v, &chars_of(file));
    string_of(&v)
}

/// One action on the host that fetching an image performs.
#[derive(Debug)]
pub enum FetchStep {
    RemoveTree(String),
    CreateDir(String),
    Download { url: String, to: String },
    Unpack { archive: String, into: String },
    RemoveFile(String),
}

pub ghost enum FetchStepView {
    RemoveTree(Seq<char>),
    CreateDir(Seq<char>),
    Download { url: Seq<char>, to: Seq<char> },
    Unpack { archive: Seq<char>, into: Seq<char> },
    RemoveFile(Seq<char>),
}

impl View for FetchStep {
    type V = FetchStepView;

    open spec fn view(&self) -> FetchStepView {
        match self {
            FetchStep::RemoveTree(p) => FetchStepView::RemoveTree(p@),
            FetchStep::CreateDir(p) => FetchStepView::CreateDir(p@),
            FetchStep::Download { url, to } => FetchStepView::Download { url: url@, to: to@ },
            FetchStep::Unpack { archive, into } => FetchStepView::Unpack { archive: archive@, into: into@ },
            FetchStep::RemoveFile(p) => FetchStepView::RemoveFile(p@),
        }
    }
}

pub open spec fn fetch_views(v: Seq<FetchStep>) -> Seq<FetchStepView> {
    v.map_values(|s: FetchStep| s@)
}

/// What fetching the image at `path` into the cache entry `base` does: where
/// the cache is not current, empty or create the `rootfs` directory, download
/// the tarball and its signature, unpack the tarball and delete it (the
/// signature stays as the cache sentinel). Nothing where it is current.
pub open spec fn fetch_spec(base: Seq<char>, path: Seq<char>, current: bool, rootfs_exists: bool) -> Seq<
    FetchStepView,
> {
    let rootfs = base + "/"@ + "rootfs"@;
    let tarball = base + "/"@ + "rootfs.tar.xz"@;
    let sentinel = base + "/"@ + "rootfs.tar.xz.asc"@;
    if current {
        seq![]
    } else {
        let prep = if rootfs_exists {
            seq![FetchStepView::RemoveTree(rootfs), FetchStepView::CreateDir(rootfs)]
        } else {
            seq![FetchStepView::CreateDir(rootfs)]
        };
        prep + seq![
            FetchStepView::Download { url: artifact_url(path, "rootfs.tar.xz"@), to: tarball },
            FetchStepView::Download { url: artifact_url(path, "rootfs.tar.xz.asc"@), to: sentinel },
            FetchStepView::Unpack { archive: tarball, into: rootfs },
            FetchStepView::RemoveFile(tarball),
        ]
    }
}

/// A root filesystem image of the local cache, keyed by distribution and version.
#[derive(Debug)]
pub struct Image {
    distribution: String,
    version: String,
    image_base_path: String,
}

pub ghost struct ImageView {
    pub distribution: Seq<char>,
    pub version: Seq<char>,
    pub base: Seq<char>,
}

impl View for Image {
    type V = ImageView;

    closed spec fn view(&self) -> ImageView {
        ImageView {
            distribution: self.distribution@,
            version: self.version@,
            base: self.image_base_path@,
        }
    }
}

impl Image {
    /// The cache entry of `distribution`/`version` under the user's images root.
    pub fn new(distribution: &str, version: &str, user: &User) -> (r: Image)
        ensures
            r@ == (ImageView {
                distribution: distribution@,
                version: version@,
                base: user.images_view() + "/"@ + distribution@ + "/"@ + version@,
            }),
    {
        let d = join_path(user.images(), distribution);
        let base = join_path(d.as_str(), version);
        Image {
            distribution: string_of(&chars_of(distribution)),
            version: string_of(&chars_of(version)),
            image_base_path: base,
        }
    }

    pub fn distribution(&self) -> (r: &str)
        ensures
            r@ == self@.distribution,
    {
        self.distribution.as_str()
    }

    pub fn version(&self) -> (r: &str)
        ensures
            r@ == self@.version,
    {
        self.version.as_str()
    }

    /// `images_root/<distribution>/<version>`
    pub fn image_base_path(&self) -> (r: &str)
        ensures
            r@ == self@.base,
    {
        self.image_base_path.as_str()
    }

    /// `<base>/rootfs.tar.xz.asc`, the cache sentinel.
    pub fn rootfs_hash_path(&self) -> (r: String)
        ensures
            r@ == self@.base + "/"@ + "rootfs.tar.xz.asc"@,
    {
        join_path(self.image_base_path.as_str(), "rootfs.tar.xz.asc")
    }

    /// `<base>/rootfs.tar.xz`, where the download is put.
    pub fn downloaded_rootfs_path(&self) -> (r: String)
        ensures
            r@ == self@.base + "/"@ + "rootfs.tar.xz"@,
    {
        join_path(self.image_base_path.as_str(), "rootfs.tar.xz")
    }

    /// `<base>/rootfs`, the extracted tree.
    pub fn rootfs_path(&self) -> (r: String)
        ensures
            r@ == self@.base + "/"@ + "rootfs"@,
    {
        join_path(self.image_base_path.as_str(), "rootfs")
    }

    /// Whether the image is in the cache: `ImageNotFound` unless its sentinel exists.
    pub fn search_image(&self, hash_file_exists: bool) -> (r: Result<(), Error>)
        ensures
            r == if hash_file_exists {
                Ok::<(), Error>(())
            } else {
                Err(Error::ImageNotFound)
            },
    {
        if hash_file_exists {
            Ok(())
        } else {
            Err(Error::ImageNotFound)
        }
    }

    /// Whether the cached image is the newest: its sentinel's contents
    /// `local_hash` (`None` where it is missing) equal the remote signature.
    pub fn check_rootfs_newest(&self, local_hash: Option<&str>, remote_hash: &str) -> (r: bool)
        ensures
            r == match local_hash {
                Some(l) => l@ == remote_hash@,
                None => false,
            },
    {
        is_current(local_hash, remote_hash)
    }

    /// The steps that bring the cached image up to the newest one, found at
    /// `path` on the image server; `local_hash` is the sentinel's contents
    /// (`None` where it is missing) and `remote_hash` the newest signature.
    pub fn download_image(
        &self,
        path: &str,
        local_hash: Option<&str>,
        remote_hash: &str,
        rootfs_exists: bool,
    ) -> (r: Vec<FetchStep>)
        ensures
            fetch_views(r@) == fetch_spec(
                self@.base,
                path@,
                match local_hash {
                    Some(l) => l@ == remote_hash@,
                    None => false,
                },
                rootfs_exists,
            ),
    {
        let mut v: Vec<FetchStep> = Vec::new();
        if is_current(local_hash, remote_hash) {
            assert(fetch_views(v@) =~= seq![]);
            return v;
        }
        if rootfs_exists {
            v.push(FetchStep::RemoveTree(self.rootfs_path()));
        }
        v.push(FetchStep::CreateDir(self.rootfs_path()));
        v.push(
            FetchStep::Download {
                url: image_file_url(path, "rootfs.tar.xz"),
                to: self.downloaded_rootfs_path(),
            },
        );
        v.push(
            FetchStep::Download {
                url: image_file_url(path, "rootfs.tar.xz.asc"),
                to: self.rootfs_hash_path(),
            },
        );
        v.push(
            FetchStep::Unpack { archive: self.downloaded_rootfs_path(), into: self.rootfs_path() },
        );
        v.push(FetchStep::RemoveFile(self.downloaded_rootfs_path()));
        assert(fetch_views(v@) =~= fetch_spec(self@.base, path@, false, rootfs_exists));
        v
    }
}

/// The images of the catalog for one distribution, version and architecture.
#[derive(Debug)]
pub struct Downloader {
    specific_images_meta: Vec<ImageMeta>,
}

impl Downloader {
    pub closed spec fn entries(&self) -> Seq<ImageMeta> {
        self.specific_images_meta@
    }

    /// The images that the catalog index `index` lists for `distribution`,
    /// `version` and `arch`.
    pub fn new(index: &str, distribution: &str, version: &str, arch: &str) -> (r: Downloader)
        ensures
            meta_views(r.entries()) == index_entries(
                split(index@, '\n'),
                distribution@,
                version@,
                arch@,
            ),
    {
        Downloader { specific_images_meta: parse_index(index, distribution, version, arch) }
    }

    pub fn specific_images_meta(&self) -> (r: &Vec<ImageMeta>)
        ensures
            r@ == self.entries(),
    {
        &self.specific_images_meta
    }

    /// The path of the newest image (the last of the newest, on ties);
    /// `ImageMetaNotFound` where there is none.
    pub fn newest_url(&self) -> (r: Result<String, Error>)
        ensures
            match r {
                Ok(p) => exists|i: int|
                    0 <= i < self.entries().len() && p@ == self.entries()[i].path@ && (forall|j: int|
                        0 <= j < self.entries().len() ==> time_le(
                            #[trigger] self.entries()[j].time,
                            self.entries()[i].time,
                        )) && (forall|j: int|
                        i < j < self.entries().len() ==> !time_le(
                            self.entries()[i].time,
                            #[trigger] self.entries()[j].time,
                        )),
                Err(e) => e == Error::ImageMetaNotFound && self.entries().len() == 0,
            },
    {
        let r = newest_url(&self.specific_images_meta);
        assert(self.entries() == self.specific_images_meta@);
        r
    }
}

} // verus!
