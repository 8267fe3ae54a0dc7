//! The path translator for a POSIX-emulation layer.
//!
//! The emulation layer's shared library exports one path-conversion entry
//! point, driven by a two-phase protocol: a first call with capacity zero
//! reports the required output size (negative when the input path is not
//! representable in the target namespace), a second call with that capacity
//! fills the output buffer.  Loading the library and making the foreign calls
//! cannot be done here; the translator instead records the two resolved
//! handle values, and every conversion takes the entry point as a function
//! value whose behaviour flows into the contract through `call_ensures`.

use vstd::prelude::*;
use vstd::string::StrSliceExecFns;
use vstd::string::StringExecFns;
use vstd::utf8::decode_utf8;
use vstd::utf8::encode_utf8;
use vstd::utf8::valid_utf8;

verus! {

/// Mode code of the conversion entry point: emulated (POSIX-style) path text
/// to native wide path text.  Fixed by the foreign library's protocol.
pub const CCP_POSIX_TO_WIN_W: isize = 1;

/// Mode code of the conversion entry point: native wide path text to
/// emulated (POSIX-style) path text.  Fixed by the foreign library's protocol.
pub const CCP_WIN_W_TO_POSIX: isize = 3;

/// Native file-attribute bit: the file is read-only.
pub const FILE_ATTRIBUTE_READONLY: u32 = 1;

/// Native file-attribute bit: the file is marked as a system file.
pub const FILE_ATTRIBUTE_SYSTEM: u32 = 4;

/// A directory entry as the translator reads it: the entry's path and the
/// native attribute bits, or `None` where the attribute query failed.
pub struct DirEntryInfo {
    pub path: String,
    pub attributes: Option<u32>,
}

/// The translator.  It holds the address of the loaded emulation library
/// (zero when loading failed) and the address of the resolved conversion
/// entry point (zero when resolution failed); both are fixed at
/// construction, and every method takes `&self`, so one instance can be
/// shared freely.
pub struct OsEmul {
    cygwin_dll: usize,
    cygwin_conv_path: usize,
}

impl OsEmul {
    /// The stored address of the emulation library's handle.
    pub closed spec fn dll_handle(self) -> usize {
        self.cygwin_dll
    }

    /// The stored address of the conversion entry point.
    pub closed spec fn conv_addr(self) -> usize {
        self.cygwin_conv_path
    }

    /// The translator is active exactly when both the library handle and the
    /// entry-point address resolved to something non-null.
    pub open spec fn active(self) -> bool {
        self.dll_handle() != 0 && self.conv_addr() != 0
    }

    /// Builds a translator from the outcome of loading the emulation library
    /// and resolving its conversion symbol: the two addresses, with zero
    /// standing for failure.  Construction itself never fails; a host
    /// without the emulation layer simply yields an inactive translator.
    pub fn new(cygwin_dll: usize, cygwin_conv_path: usize) -> (r: OsEmul)
        ensures
            r.dll_handle() == cygwin_dll,
            r.conv_addr() == cygwin_conv_path,
            r.active() <==> (cygwin_dll != 0 && cygwin_conv_path != 0),
    {
        OsEmul { cygwin_dll, cygwin_conv_path }
    }

    /// True exactly when the emulation layer is available: the library
    /// loaded and the conversion symbol resolved.
    pub fn running_under_cygwin(&self) -> (r: bool)
        ensures
            r == self.active(),
    {
        self.cygwin_dll != 0 && self.cygwin_conv_path != 0
    }

    /// Converts a path between the two namespaces by driving the foreign
    /// entry point `entry` through its two-phase protocol: a probe call with
    /// capacity zero asks for the required output size, and a negative
    /// answer means the path is not representable under `mode`, in which
    /// case the diagnostic sentinel is returned instead of a converted path;
    /// otherwise a fill call with exactly that capacity yields the converted
    /// bytes, decoded best-effort into the result.  The call is valid only
    /// on an active translator.
    pub fn cygwin_convert_path<F: Fn(isize, Vec<u8>, usize) -> (isize, Vec<u8>) + Copy>(
        &self,
        mode: isize,
        path: &str,
        entry: F,
    ) -> (r: String)
        requires
            self.active(),
            entry_callable(entry),
        ensures
            convert_post(entry, mode, path@, r@),
    {
        let input = conv_input(path);
        let (sz, probe) = entry(mode, input, 0usize);
        if sz < 0 {
            let r = invalid_path_string(path);
            proof {
                assert(entry_returns(entry, mode, conv_input_spec(path@), 0usize, sz, probe@));
            }
            r
        } else {
            let cap: usize = sz as usize;
            let refill = conv_input(path);
            let (fill_sz, raw) = entry(mode, refill, cap);
            let r = utf8_lossy_string(&raw);
            proof {
                assert(entry_returns(entry, mode, conv_input_spec(path@), 0usize, sz, probe@));
                assert(entry_returns(entry, mode, conv_input_spec(path@), cap, fill_sz, raw@));
            }
            r
        }
    }

    /// Conversion with the direction fixed: emulated (POSIX-style) path to
    /// native path.
    pub fn convert_cygpath_to_win<F: Fn(isize, Vec<u8>, usize) -> (isize, Vec<u8>) + Copy>(
        &self,
        path: &str,
        entry: F,
    ) -> (r: String)
        requires
            self.active(),
            entry_callable(entry),
        ensures
            convert_post(entry, CCP_POSIX_TO_WIN_W, path@, r@),
    {
        let mode = CCP_POSIX_TO_WIN_W;
        self.cygwin_convert_path(mode, path, entry)
    }

    /// Conversion with the direction fixed: native path to emulated
    /// (POSIX-style) path.
    pub fn convert_winpath_to_cyg<F: Fn(isize, Vec<u8>, usize) -> (isize, Vec<u8>) + Copy>(
        &self,
        path: &str,
        entry: F,
    ) -> (r: String)
        requires
            self.active(),
            entry_callable(entry),
        ensures
            convert_post(entry, CCP_WIN_W_TO_POSIX, path@, r@),
    {
        let mode = CCP_WIN_W_TO_POSIX;
        self.cygwin_convert_path(mode, path, entry)
    }

    /// Resolves one of the emulation layer's symbolic links by the
    /// documented mechanism: convert the native path into the emulated
    /// namespace and back, letting the layer's own conversion entry point
    /// resolve the link on the way.  Exactly those two conversions happen,
    /// in that order; whether the input really is such a link is not
    /// checked here.
    pub fn dereference_cygwin_symlink<F: Fn(isize, Vec<u8>, usize) -> (isize, Vec<u8>) + Copy>(
        &self,
        path: &str,
        entry: F,
    ) -> (r: String)
        requires
            self.active(),
            entry_callable(entry),
        ensures
            exists|mid: Seq<char>|
                #[trigger] convert_post(entry, CCP_WIN_W_TO_POSIX, path@, mid) && convert_post(
                    entry,
                    CCP_POSIX_TO_WIN_W,
                    mid,
                    r@,
                ),
    {
        let cygwin_path = self.convert_winpath_to_cyg(path, entry);
        self.convert_cygpath_to_win(cygwin_path.as_str(), entry)
    }

    /// The symlink heuristic on a path whose native attributes are `attr`
    /// (`None` where the attribute query failed): true when the "system" bit
    /// is set, or when the "read-only" bit is set and the path ends in the
    /// native shortcut suffix.
    pub open spec fn symlink_heuristic(path: Seq<char>, attr: Option<u32>) -> bool {
        match attr {
            Some(a) => (a & FILE_ATTRIBUTE_SYSTEM != 0) || (a & FILE_ATTRIBUTE_READONLY != 0
                && ends_with_lnk(path)),
            None => false,
        }
    }

    /// Decides whether a path probably names one of the emulation layer's
    /// symbolic links.  `attr` is the native attribute bitset of the file,
    /// or `None` where the query failed, which counts as "not a symlink".
    /// A heuristic: a legitimate read-only shortcut file passes it too.
    pub fn path_is_probably_cygwin_symlink(&self, path: &str, attr: Option<u32>) -> (r: bool)
        ensures
            r == Self::symlink_heuristic(path@, attr),
    {
        match attr {
            Some(a) => (a & FILE_ATTRIBUTE_SYSTEM != 0) || (a & FILE_ATTRIBUTE_READONLY != 0
                && str_ends_with_lnk(path)),
            None => false,
        }
    }

    /// The path-based symlink heuristic, applied to a directory entry's own
    /// path and attributes.
    pub fn dirent_is_probably_cygwin_symlink(&self, dent: &DirEntryInfo) -> (r: bool)
        ensures
            r == Self::symlink_heuristic(dent.path@, dent.attributes),
    {
        self.path_is_probably_cygwin_symlink(dent.path.as_str(), dent.attributes)
    }
}

/// What the conversion entry point is handed as its input: the UTF-8 bytes
/// of the path, terminated by a NUL byte.
pub open spec fn conv_input_spec(path: Seq<char>) -> Seq<u8> {
    encode_utf8(path).push(0u8)
}

/// The diagnostic path value returned for a path that the target namespace
/// cannot represent: a fixed marker followed by the original input.
pub open spec fn invalid_path_sentinel(path: Seq<char>) -> Seq<char> {
    "::CYGWIN::INVALID_PATH:: "@ + path
}

/// What `String::from_utf8_lossy` yields on the given bytes.  Valid UTF-8
/// decodes exactly; invalid sequences are replaced, and only this name
/// speaks of that case.
pub uninterp spec fn utf8_lossy(bytes: Seq<u8>) -> Seq<char>;

/// One outcome of the entry point on the given mode, input bytes and output
/// capacity: some call of `entry` on a vector holding `input` returned the
/// status `sz` and a vector holding `out`.
pub open spec fn entry_returns<F: Fn(isize, Vec<u8>, usize) -> (isize, Vec<u8>)>(
    entry: F,
    mode: isize,
    input: Seq<u8>,
    cap: usize,
    sz: isize,
    out: Seq<u8>,
) -> bool {
    exists|iv: Vec<u8>, ret: (isize, Vec<u8>)|
        iv@ == input && ret.0 == sz && ret.1@ == out && #[trigger] call_ensures(
            entry,
            (mode, iv, cap),
            ret,
        )
}

/// The entry point accepts every call: the two-phase protocol may probe and
/// fill with any mode, input and capacity.
pub open spec fn entry_callable<F: Fn(isize, Vec<u8>, usize) -> (isize, Vec<u8>)>(
    entry: F,
) -> bool {
    forall|mode: isize, input: Vec<u8>, cap: usize| #[trigger] call_requires(
        entry,
        (mode, input, cap),
    )
}

/// What a two-phase conversion of `path` under `mode` returns: the entry
/// point's probe call reported some size `sz`; a negative `sz` yields the
/// diagnostic sentinel, otherwise a fill call with capacity `sz` handed back
/// some bytes `raw` and the result is their best-effort decoding.
pub open spec fn convert_post<F: Fn(isize, Vec<u8>, usize) -> (isize, Vec<u8>)>(
    entry: F,
    mode: isize,
    path: Seq<char>,
    result: Seq<char>,
) -> bool {
    exists|sz: isize, probe: Seq<u8>|
        {
            &&& #[trigger] entry_returns(entry, mode, conv_input_spec(path), 0usize, sz, probe)
            &&& (sz < 0 ==> result == invalid_path_sentinel(path))
            &&& (sz >= 0 ==> exists|fill_sz: isize, raw: Seq<u8>|
                {
                    &&& #[trigger] entry_returns(
                        entry,
                        mode,
                        conv_input_spec(path),
                        sz as usize,
                        fill_sz,
                        raw,
                    )
                    &&& result == utf8_lossy(raw)
                    &&& (valid_utf8(raw) ==> result == decode_utf8(raw))
                })
        }
}

/// The availability law: a translator is active exactly when neither the
/// library handle nor the entry-point address stored at construction is
/// null.  `new` stores its two arguments unchanged and nothing ever mutates
/// them, so `running_under_cygwin`, which returns `active()`, is false
/// whenever loading or symbol resolution failed, and only then.
pub proof fn lemma_active_iff_resolved(t: OsEmul)
    ensures
        t.active() <==> (t.dll_handle() != 0 && t.conv_addr() != 0),
{
}

/// The entry point behaves, on the given mode and input, as a pure
/// conversion whose output bytes are `out`: every probe call reports the
/// size of `out`, and every fill call with that capacity hands back exactly
/// `out`.
pub open spec fn entry_maps<F: Fn(isize, Vec<u8>, usize) -> (isize, Vec<u8>)>(
    entry: F,
    mode: isize,
    input: Seq<u8>,
    out: Seq<u8>,
) -> bool {
    forall|iv: Vec<u8>, cap: usize, ret: (isize, Vec<u8>)|
        iv@ == input && #[trigger] call_ensures(entry, (mode, iv, cap), ret) ==> ret.0 == out.len()
            as isize && (cap == out.len() ==> ret.1@ == out)
}

/// When the entry point converts `p` under `mode` to exactly the UTF-8
/// bytes of `q`, the two-phase conversion returns exactly `q`: nothing is
/// lost or added around the foreign call.
pub proof fn lemma_convert_exact<F: Fn(isize, Vec<u8>, usize) -> (isize, Vec<u8>)>(
    entry: F,
    mode: isize,
    p: Seq<char>,
    q: Seq<char>,
    result: Seq<char>,
)
    requires
        encode_utf8(q).len() <= isize::MAX,
        entry_maps(entry, mode, conv_input_spec(p), encode_utf8(q)),
        convert_post(entry, mode, p, result),
    ensures
        result == q,
{
    broadcast use vstd::utf8::encode_utf8_valid_utf8;
    broadcast use vstd::utf8::encode_utf8_decode_utf8;

    let input = conv_input_spec(p);
    let qb = encode_utf8(q);
    let (sz, probe): (isize, Seq<u8>) = choose|sz: isize, probe: Seq<u8>|
        {
            &&& #[trigger] entry_returns(entry, mode, input, 0usize, sz, probe)
            &&& (sz < 0 ==> result == invalid_path_sentinel(p))
            &&& (sz >= 0 ==> exists|fill_sz: isize, raw: Seq<u8>|
                {
                    &&& #[trigger] entry_returns(entry, mode, input, sz as usize, fill_sz, raw)
                    &&& result == utf8_lossy(raw)
                    &&& (valid_utf8(raw) ==> result == decode_utf8(raw))
                })
        };
    let (iv0, ret0): (Vec<u8>, (isize, Vec<u8>)) = choose|iv: Vec<u8>, ret: (isize, Vec<u8>)|
        iv@ == input && ret.0 == sz && ret.1@ == probe && #[trigger] call_ensures(
            entry,
            (mode, iv, 0usize),
            ret,
        );
    assert(sz == qb.len() as isize);
    assert(sz >= 0);
    let (fill_sz, raw): (isize, Seq<u8>) = choose|fill_sz: isize, raw: Seq<u8>|
        {
            &&& #[trigger] entry_returns(entry, mode, input, sz as usize, fill_sz, raw)
            &&& result == utf8_lossy(raw)
            &&& (valid_utf8(raw) ==> result == decode_utf8(raw))
        };
    let (iv1, ret1): (Vec<u8>, (isize, Vec<u8>)) = choose|iv: Vec<u8>, ret: (isize, Vec<u8>)|
        iv@ == input && ret.0 == fill_sz && ret.1@ == raw && #[trigger] call_ensures(
            entry,
            (mode, iv, sz as usize),
            ret,
        );
    assert(raw == qb);
    assert(result == decode_utf8(qb));
}

/// The round-trip law: a path that the entry point maps to some other
/// namespace and back unchanged comes through the pair of two-phase
/// conversions unchanged as well.  `p` stands for a native path whose
/// emulated form is `q`; `out` is what converting `p` out of the native
/// namespace returned and `back` the result of converting `out` back.
pub proof fn lemma_convert_round_trip<F: Fn(isize, Vec<u8>, usize) -> (isize, Vec<u8>)>(
    entry: F,
    p: Seq<char>,
    q: Seq<char>,
    out: Seq<char>,
    back: Seq<char>,
)
    requires
        encode_utf8(p).len() <= isize::MAX,
        encode_utf8(q).len() <= isize::MAX,
        entry_maps(entry, CCP_WIN_W_TO_POSIX, conv_input_spec(p), encode_utf8(q)),
        entry_maps(entry, CCP_POSIX_TO_WIN_W, conv_input_spec(q), encode_utf8(p)),
        convert_post(entry, CCP_WIN_W_TO_POSIX, p, out),
        convert_post(entry, CCP_POSIX_TO_WIN_W, out, back),
    ensures
        out == q,
        back == p,
{
    lemma_convert_exact(entry, CCP_WIN_W_TO_POSIX, p, q, out);
    lemma_convert_exact(entry, CCP_POSIX_TO_WIN_W, out, p, back);
}

/// Marshals a path for the entry point: its UTF-8 bytes plus a terminating
/// NUL.
fn conv_input(path: &str) -> (r: Vec<u8>)
    ensures
        r@ == conv_input_spec(path@),
{
    let mut v = path.as_bytes_vec();
    v.push(0u8);
    v
}

/// Builds the diagnostic path value for an unrepresentable input.
fn invalid_path_string(path: &str) -> (r: String)
    ensures
        r@ == invalid_path_sentinel(path@),
{
    let mut r = String::from_str("::CYGWIN::INVALID_PATH:: ");
    r.append(path);
    r
}

/// Relies on `String::from_utf8_lossy`: valid UTF-8 decodes unchanged, and
/// the result depends on the bytes alone.
#[verifier::external_body]
fn utf8_lossy_string(bytes: &Vec<u8>) -> (r: String)
    ensures
        r@ == utf8_lossy(bytes@),
        valid_utf8(bytes@) ==> r@ == decode_utf8(bytes@),
{
    String::from_utf8_lossy(bytes.as_slice()).into_owned()
}

/// True when the path ends in the four-character native shortcut suffix.
pub open spec fn ends_with_lnk(path: Seq<char>) -> bool {
    path.len() >= 4 && path[path.len() - 4] == '.' && path[path.len() - 3] == 'l' && path[path.len()
        - 2] == 'n' && path[path.len() - 1] == 'k'
}

/// Checks the last four characters of `path` against the shortcut suffix.
fn str_ends_with_lnk(path: &str) -> (r: bool)
    ensures
        r == ends_with_lnk(path@),
{
    let n = path.unicode_len();
    if n < 4 {
        return false;
    }
    path.get_char(n - 4) == '.' && path.get_char(n - 3) == 'l' && path.get_char(n - 2) == 'n'
        && path.get_char(n - 1) == 'k'
}

} // verus!
