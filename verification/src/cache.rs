use vstd::prelude::*;
use vstd::string::StringExecFns;

use crate::decode::{decode, decode_spec, DecodeError};
use crate::resize::{calculate_size, fit_size};

verus! {

/// Why populating the cache for a source failed. I/O around the cache (file
/// reads and writes) is the caller's and reports its own errors.
#[derive(Clone, Copy, Debug, PartialEq, Eq, Structural)]
pub enum CacheError {
    /// The source bytes could not be decoded.
    Decode(DecodeError),
    /// The resized frame could not be re-encoded in the configured output
    /// format.
    Encode,
}

/// Configuration of the thumbnail cache: the edge of the square box that
/// thumbnails are fitted into, and the extension (hence format) that cache
/// entries are encoded and stored under.
pub struct CacheConfig {
    pub thumb_size: u32,
    pub extension: String,
}

impl CacheConfig {
    pub open spec fn wf(&self) -> bool {
        self.thumb_size >= 1
    }

    pub fn new(thumb_size: u32, extension: String) -> (r: CacheConfig)
        requires
            thumb_size >= 1,
        ensures
            r.wf(),
            r.thumb_size == thumb_size,
            r.extension@ == extension@,
    {
        CacheConfig { thumb_size, extension }
    }
}

/// The stable cache key of a source path: its digest printed in hexadecimal.
pub uninterp spec fn blake3_hex_of(path: Seq<char>) -> Seq<char>;

/// What encoding an RGBA8 image in the format named by the extension yields:
/// the container bytes, or nothing when the format is unknown or cannot be
/// encoded.
pub uninterp spec fn encode_of(w: u32, h: u32, rgba: Seq<u8>, ext: Seq<char>) -> Option<Seq<u8>>;

/// What resampling an RGBA8 image to the given dimensions yields.
pub uninterp spec fn resize_pixels(w: u32, h: u32, rgba: Seq<u8>, nw: u32, nh: u32) -> Seq<u8>;

/// Relies on blake3::hash and blake3::Hash::to_hex: the digest of the path's
/// bytes printed as exactly 64 lowercase hexadecimal characters, a function
/// of the input string alone.
#[verifier::external_body]
fn blake3_hex(path: &str) -> (r: String)
    ensures
        r@ == blake3_hex_of(path@),
        r@.len() == 64,
{
    String::from(blake3::hash(path.as_bytes()).to_hex().as_str())
}

/// Relies on image::DynamicImage::resize_exact with the Gaussian filter and
/// ImageBuffer::from_raw / into_raw: the result has exactly the requested
/// dimensions, its raw container holds width * height * 4 bytes, and its
/// pixels are a function of the source pixels and the dimensions alone.
#[verifier::external_body]
fn resize_rgba(w: u32, h: u32, rgba: &Vec<u8>, nw: u32, nh: u32) -> (r: Vec<u8>)
    requires
        rgba@.len() == 4 * w * h,
        1 <= w,
        1 <= h,
        1 <= nw,
        1 <= nh,
    ensures
        r@ == resize_pixels(w, h, rgba@, nw, nh),
        r@.len() == 4 * nw * nh,
{
    let buf = image::RgbaImage::from_raw(w, h, rgba.clone()).unwrap();
    let img = image::DynamicImage::ImageRgba8(buf);
    img.resize_exact(nw, nh, image::imageops::FilterType::Gaussian).into_rgba8().into_raw()
}

/// Relies on image::DynamicImage::write_to, with the format taken from
/// image::ImageFormat::from_extension: the encoded container bytes are a
/// function of the pixel data, the dimensions and the format alone, and
/// encoding fails exactly when the format is unknown or its encoder rejects
/// the image.
#[verifier::external_body]
fn encode_rgba(w: u32, h: u32, rgba: &Vec<u8>, ext: &str) -> (r: Option<Vec<u8>>)
    requires
        rgba@.len() == 4 * w * h,
    ensures
        r is Some <==> encode_of(w, h, rgba@, ext@) is Some,
        r matches Some(v) ==> encode_of(w, h, rgba@, ext@) == Some(v@),
{
    let fmt = match image::ImageFormat::from_extension(ext) {
        Some(f) => f,
        None => return None,
    };
    let buf = match image::RgbaImage::from_raw(w, h, rgba.clone()) {
        Some(b) => b,
        None => return None,
    };
    let mut out = std::io::Cursor::new(Vec::new());
    match image::DynamicImage::ImageRgba8(buf).write_to(&mut out, fmt) {
        Ok(()) => Some(out.into_inner()),
        Err(_) => None,
    }
}

/// The on-disk file name of the cache entry for a path: the path's digest as
/// the stem, the configured output extension after a dot. The extension is
/// part of the stored name, so lookup never scans for a key prefix.
pub open spec fn entry_name_spec(path: Seq<char>, ext: Seq<char>) -> Seq<char> {
    blake3_hex_of(path) + "."@ + ext
}

pub fn entry_name(path: &str, ext: &str) -> (r: String)
    ensures
        r@ == entry_name_spec(path@, ext@),
{
    proof {
        reveal_strlit(".");
    }
    let mut s = blake3_hex(path);
    s.append(".");
    s.append(ext);
    s
}

/// A derived thumbnail ready to be stored: the encoded bytes and the pixel
/// dimensions they decode to.
#[derive(Debug)]
pub struct Thumbnail {
    pub data: Vec<u8>,
    pub width: u32,
    pub height: u32,
}

/// What deriving a thumbnail from source bytes yields: decode under the
/// source's format hint, fit the first frame's dimensions into the thumbnail
/// box, resample that frame, and encode it under the output extension. An
/// animated source is flattened to its first frame: the cache stores a still
/// preview.
pub open spec fn build_thumbnail_spec(
    src: Seq<u8>,
    src_ext: Seq<char>,
    thumb: int,
    out_ext: Seq<char>,
) -> Result<(Seq<u8>, int, int), CacheError> {
    match decode_spec(src, src_ext) {
        Err(e) => Err(CacheError::Decode(e)),
        Ok(fs) => {
            let f = fs[0];
            let dims = fit_size(f.0 as int, f.1 as int, thumb);
            let resized = resize_pixels(f.0, f.1, f.3, dims.0 as u32, dims.1 as u32);
            match encode_of(dims.0 as u32, dims.1 as u32, resized, out_ext) {
                Option::None => Err(CacheError::Encode),
                Option::Some(b) => Ok((b, dims.0, dims.1)),
            }
        },
    }
}

/// Derive the thumbnail for one source: decode, fit the first frame into the
/// configured box preserving aspect ratio (the longer side becomes exactly
/// the configured size), resample, and re-encode in the configured output
/// format.
pub fn build_thumbnail(source: &Vec<u8>, source_ext: &str, cfg: &CacheConfig) -> (r: Result<
    Thumbnail,
    CacheError,
>)
    requires
        cfg.wf(),
    ensures
        r matches Ok(t) ==> build_thumbnail_spec(source@, source_ext@, cfg.thumb_size as int, cfg.extension@)
            == Ok::<_, CacheError>((t.data@, t.width as int, t.height as int)),
        r matches Err(e) ==> build_thumbnail_spec(
            source@,
            source_ext@,
            cfg.thumb_size as int,
            cfg.extension@,
        ) == Err::<(Seq<u8>, int, int), _>(e),
        r matches Ok(t) ==> 1 <= t.width <= cfg.thumb_size && 1 <= t.height <= cfg.thumb_size,
        r matches Ok(t) ==> decode_spec(source@, source_ext@) matches Ok(fs) && (fs[0].0 >= fs[0].1
            ==> t.width == cfg.thumb_size) && (fs[0].0 < fs[0].1 ==> t.height == cfg.thumb_size),
{
    let fs = match decode(source, source_ext) {
        Ok(fs) => fs,
        Err(e) => {
            return Err(CacheError::Decode(e));
        },
    };
    let first = fs.get(0);
    let (nw, nh) = calculate_size(first.width, first.height, cfg.thumb_size);
    let resized = resize_rgba(first.width, first.height, &first.rgba, nw, nh);
    match encode_rgba(nw, nh, &resized, cfg.extension.as_str()) {
        Option::Some(data) => Ok(Thumbnail { data, width: nw, height: nh }),
        Option::None => Err(CacheError::Encode),
    }
}

/// One stored cache entry: the file name (digest stem plus extension) and
/// the encoded thumbnail bytes under it.
pub struct CacheEntry {
    pub name: String,
    pub data: Vec<u8>,
}

/// The entries as a map from file name to stored bytes; later entries win,
/// though a well-formed directory never repeats a name.
pub open spec fn entries_map(s: Seq<CacheEntry>) -> Map<Seq<char>, Seq<u8>>
    decreases s.len(),
{
    if s.len() == 0 {
        Map::empty()
    } else {
        entries_map(s.drop_last()).insert(s.last().name@, s.last().data@)
    }
}

/// No two entries share a name.
pub open spec fn names_distinct(s: Seq<CacheEntry>) -> bool {
    forall|i: int, j: int| 0 <= i < j < s.len() ==> (#[trigger] s[i]).name@ != (#[trigger] s[j]).name@
}

proof fn lemma_entries_map_contains(s: Seq<CacheEntry>, k: Seq<char>)
    ensures
        entries_map(s).contains_key(k) <==> exists|i: int|
            0 <= i < s.len() && (#[trigger] s[i]).name@ == k,
    decreases s.len(),
{
    if s.len() == 0 {
    } else {
        let prefix = s.drop_last();
        lemma_entries_map_contains(prefix, k);
        assert(forall|i: int| 0 <= i < prefix.len() ==> #[trigger] prefix[i] == s[i]);
        if entries_map(s).contains_key(k) {
            if s.last().name@ == k {
                assert(s[s.len() - 1].name@ == k);
            } else {
                let i = choose|i: int| 0 <= i < prefix.len() && (#[trigger] prefix[i]).name@ == k;
                assert(s[i].name@ == k);
            }
        }
        if exists|i: int| 0 <= i < s.len() && (#[trigger] s[i]).name@ == k {
            let i = choose|i: int| 0 <= i < s.len() && (#[trigger] s[i]).name@ == k;
            if i == s.len() - 1 {
                assert(s.last().name@ == k);
            } else {
                assert(prefix[i].name@ == k);
            }
        }
    }
}

proof fn lemma_entries_map_value(s: Seq<CacheEntry>, i: int)
    requires
        names_distinct(s),
        0 <= i < s.len(),
    ensures
        entries_map(s).contains_key(s[i].name@),
        entries_map(s)[s[i].name@] == s[i].data@,
    decreases s.len(),
{
    let prefix = s.drop_last();
    if i == s.len() - 1 {
    } else {
        assert(forall|k: int| 0 <= k < prefix.len() ==> #[trigger] prefix[k] == s[k]);
        lemma_entries_map_value(prefix, i);
        assert(s.last().name@ != s[i].name@);
    }
}

proof fn lemma_entries_map_push(s: Seq<CacheEntry>, e: CacheEntry)
    ensures
        entries_map(s.push(e)) == entries_map(s).insert(e.name@, e.data@),
{
    assert(s.push(e).drop_last() =~= s);
    assert(s.push(e).last() == e);
}

/// What populating the cache for a path does to the stored map: on a hit the
/// map is unchanged; on a miss the derived thumbnail is stored under the
/// path's entry name; a failed derivation changes nothing.
pub open spec fn to_cache_spec(
    m: Map<Seq<char>, Seq<u8>>,
    path: Seq<char>,
    src: Seq<u8>,
    src_ext: Seq<char>,
    thumb: int,
    out_ext: Seq<char>,
) -> Result<Map<Seq<char>, Seq<u8>>, CacheError> {
    let name = entry_name_spec(path, out_ext);
    if m.contains_key(name) {
        Ok(m)
    } else {
        match build_thumbnail_spec(src, src_ext, thumb, out_ext) {
            Ok(t) => Ok(m.insert(name, t.0)),
            Err(e) => Err(e),
        }
    }
}

/// What looking a path up in the cache yields: the stored bytes, or absent.
pub open spec fn from_cache_spec(
    m: Map<Seq<char>, Seq<u8>>,
    path: Seq<char>,
    out_ext: Seq<char>,
) -> Option<Seq<u8>> {
    let name = entry_name_spec(path, out_ext);
    if m.contains_key(name) {
        Some(m[name])
    } else {
        None
    }
}

/// The content-addressed thumbnail store, one entry per distinct source
/// path, keyed by the hash of the path string. This is the decision core:
/// the surrounding shell mirrors each entry onto disk under the cache root
/// and carries the same names and bytes.
pub struct CacheDir {
    entries: Vec<CacheEntry>,
}

impl View for CacheDir {
    type V = Map<Seq<char>, Seq<u8>>;

    closed spec fn view(&self) -> Map<Seq<char>, Seq<u8>> {
        entries_map(self.entries@)
    }
}

impl CacheDir {
    pub closed spec fn wf(&self) -> bool {
        names_distinct(self.entries@)
    }

    pub fn new() -> (r: CacheDir)
        ensures
            r.wf(),
            r@ == Map::<Seq<char>, Seq<u8>>::empty(),
    {
        CacheDir { entries: Vec::new() }
    }

    fn find_entry(&self, name: &String) -> (r: Option<usize>)
        ensures
            r matches Some(i) ==> i < self.entries@.len() && self.entries@[i as int].name@
                == name@,
            r is None ==> forall|i: int|
                0 <= i < self.entries@.len() ==> (#[trigger] self.entries@[i]).name@ != name@,
    {
        let mut i: usize = 0;
        while i < self.entries.len()
            invariant
                i <= self.entries@.len(),
                forall|k: int| 0 <= k < i ==> (#[trigger] self.entries@[k]).name@ != name@,
            decreases self.entries@.len() - i,
        {
            if self.entries[i].name == *name {
                return Some(i);
            }
            i = i + 1;
        }
        None
    }

    /// Ensure a cache entry exists for the path: on a hit return its name
    /// unchanged; on a miss derive the thumbnail from the source bytes,
    /// store it under the path's entry name, and return that name. Fails
    /// exactly when the derivation fails, leaving the store unchanged.
    pub fn to_cache(
        &mut self,
        path: &str,
        source: &Vec<u8>,
        source_ext: &str,
        cfg: &CacheConfig,
    ) -> (r: Result<String, CacheError>)
        requires
            old(self).wf(),
            cfg.wf(),
        ensures
            final(self).wf(),
            r matches Ok(name) ==> name@ == entry_name_spec(path@, cfg.extension@)
                && to_cache_spec(
                old(self)@,
                path@,
                source@,
                source_ext@,
                cfg.thumb_size as int,
                cfg.extension@,
            ) == Ok::<_, CacheError>(final(self)@),
            r matches Err(e) ==> to_cache_spec(
                old(self)@,
                path@,
                source@,
                source_ext@,
                cfg.thumb_size as int,
                cfg.extension@,
            ) == Err::<Map<Seq<char>, Seq<u8>>, _>(e) && final(self)@ == old(self)@,
    {
        let name = entry_name(path, cfg.extension.as_str());
        match self.find_entry(&name) {
            Option::Some(i) => {
                proof {
                    lemma_entries_map_contains(self.entries@, name@);
                }
                Ok(name)
            },
            Option::None => {
                proof {
                    lemma_entries_map_contains(self.entries@, name@);
                }
                match build_thumbnail(source, source_ext, cfg) {
                    Ok(t) => {
                        let entry = CacheEntry { name: name.clone(), data: t.data };
                        proof {
                            lemma_entries_map_push(self.entries@, entry);
                        }
                        self.entries.push(entry);
                        Ok(name)
                    },
                    Err(e) => Err(e),
                }
            },
        }
    }

    /// Look the path's entry up: the stored bytes, or absent when nothing
    /// was ever cached for it. A cheap synchronous probe that derives
    /// nothing.
    pub fn from_cache(&self, path: &str, cfg: &CacheConfig) -> (r: Option<Vec<u8>>)
        requires
            self.wf(),
        ensures
            r matches Some(v) ==> from_cache_spec(self@, path@, cfg.extension@) == Some(v@),
            r is None <==> from_cache_spec(self@, path@, cfg.extension@) is None,
    {
        let name = entry_name(path, cfg.extension.as_str());
        proof {
            lemma_entries_map_contains(self.entries@, name@);
        }
        match self.find_entry(&name) {
            Option::Some(i) => {
                proof {
                    lemma_entries_map_value(self.entries@, i as int);
                }
                Some(copy_bytes(&self.entries[i].data))
            },
            Option::None => None,
        }
    }
}

fn copy_bytes(v: &Vec<u8>) -> (r: Vec<u8>)
    ensures
        r@ == v@,
{
    let mut r: Vec<u8> = Vec::new();
    let mut i: usize = 0;
    while i < v.len()
        invariant
            i <= v@.len(),
            r@ == v@.subrange(0, i as int),
        decreases v@.len() - i,
    {
        r.push(v[i]);
        proof {
            assert(r@ =~= v@.subrange(0, i + 1));
        }
        i = i + 1;
    }
    proof {
        assert(v@.subrange(0, v@.len() as int) =~= v@);
    }
    r
}

/// Populating the cache is idempotent: once a population for a path has
/// succeeded, populating again for the same unchanged source succeeds and
/// leaves the stored map — in particular that path's bytes — identical.
pub proof fn lemma_to_cache_idempotent(
    m: Map<Seq<char>, Seq<u8>>,
    path: Seq<char>,
    src: Seq<u8>,
    src_ext: Seq<char>,
    thumb: int,
    out_ext: Seq<char>,
)
    requires
        to_cache_spec(m, path, src, src_ext, thumb, out_ext) is Ok,
    ensures
        to_cache_spec(
            to_cache_spec(m, path, src, src_ext, thumb, out_ext).unwrap(),
            path,
            src,
            src_ext,
            thumb,
            out_ext,
        ) == to_cache_spec(m, path, src, src_ext, thumb, out_ext),
{
}

/// A path never populated is absent: looking it up in an empty cache yields
/// nothing.
pub proof fn lemma_from_cache_fresh(path: Seq<char>, out_ext: Seq<char>)
    ensures
        from_cache_spec(Map::empty(), path, out_ext) is None,
{
}

/// After a successful population for a previously-absent path, lookup
/// returns exactly the derived thumbnail bytes.
pub proof fn lemma_from_cache_after_to_cache(
    m: Map<Seq<char>, Seq<u8>>,
    path: Seq<char>,
    src: Seq<u8>,
    src_ext: Seq<char>,
    thumb: int,
    out_ext: Seq<char>,
)
    requires
        !m.contains_key(entry_name_spec(path, out_ext)),
        to_cache_spec(m, path, src, src_ext, thumb, out_ext) is Ok,
    ensures
        build_thumbnail_spec(src, src_ext, thumb, out_ext) is Ok,
        from_cache_spec(
            to_cache_spec(m, path, src, src_ext, thumb, out_ext).unwrap(),
            path,
            out_ext,
        ) == Some(build_thumbnail_spec(src, src_ext, thumb, out_ext).unwrap().0),
{
}

} // verus!
