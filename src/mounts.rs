//! Mount-point discovery: turning a disk-usage listing into mount points
//! and picking the one whose device name holds a pattern.

use vstd::prelude::*;
use vstd::string::*;
use crate::text::{chars_of, contains, contains_exec, is_space, is_space_char, starts_with, starts_with_exec};

verus! {

/// The listing strategy in use.
#[derive(Debug, Clone, Copy, PartialEq, Eq, Structural)]
pub enum Platform {
    MacOS,
    Linux,
    Windows,
}

/// A mounted volume: where it is mounted and the name of its device.
#[derive(Debug, Clone, PartialEq, Eq)]
pub struct MountPoint {
    pub path: String,
    pub device_name: String,
}

impl View for MountPoint {
    type V = (Seq<char>, Seq<char>);

    open spec fn view(&self) -> (Seq<char>, Seq<char>) {
        (self.path@, self.device_name@)
    }
}

/// The outcome of looking for the target device.
#[derive(Debug, Clone, PartialEq, Eq)]
pub enum DeviceDiscovery {
    NotFound,
    Found(MountPoint),
}

/// The platform named by an operating-system name; names that are not
/// recognised fall back to `Linux`.
pub open spec fn platform_of(os: Seq<char>) -> Platform {
    if os == "macos"@ {
        Platform::MacOS
    } else if os == "windows"@ {
        Platform::Windows
    } else {
        Platform::Linux
    }
}

/// The lines of `s`, split at each `'\n'`; there is always at least one.
pub open spec fn lines_of(s: Seq<char>) -> Seq<Seq<char>>
    decreases s.len(),
{
    if s.len() == 0 {
        seq![Seq::empty()]
    } else {
        let prev = lines_of(s.drop_last());
        if s.last() == '\n' {
            prev.push(Seq::empty())
        } else {
            prev.update(prev.len() - 1, prev.last().push(s.last()))
        }
    }
}

/// Left-to-right scan for whitespace-separated words: the words that are
/// complete, and the word in progress (empty if none).
pub open spec fn word_scan(s: Seq<char>) -> (Seq<Seq<char>>, Seq<char>)
    decreases s.len(),
{
    if s.len() == 0 {
        (Seq::empty(), Seq::empty())
    } else {
        let (done, cur) = word_scan(s.drop_last());
        if is_space(s.last()) {
            if cur.len() > 0 {
                (done.push(cur), Seq::empty())
            } else {
                (done, cur)
            }
        } else {
            (done, cur.push(s.last()))
        }
    }
}

/// The maximal runs of non-whitespace characters of `s`, in order.
pub open spec fn words_of(s: Seq<char>) -> Seq<Seq<char>> {
    let (done, cur) = word_scan(s);
    if cur.len() > 0 {
        done.push(cur)
    } else {
        done
    }
}

/// The mount path that a listing row yields on `platform`, if it qualifies.
pub open spec fn row_mount_path(platform: Platform, row: Seq<char>) -> Option<Seq<char>> {
    let w = words_of(row);
    match platform {
        Platform::MacOS => if w.len() > 8 && contains(w[8], "Volume"@) {
            Some(w[8])
        } else {
            None
        },
        Platform::Linux => if w.len() > 5 && (starts_with(w[5], "/media/"@) || starts_with(
            w[5],
            "/mnt/"@,
        )) {
            Some(w[5])
        } else {
            None
        },
        Platform::Windows => None,
    }
}

/// The mount paths of the qualifying rows, in row order.
pub open spec fn mount_paths(platform: Platform, rows: Seq<Seq<char>>) -> Seq<Seq<char>>
    decreases rows.len(),
{
    if rows.len() == 0 {
        Seq::empty()
    } else {
        let prev = mount_paths(platform, rows.drop_last());
        match row_mount_path(platform, rows.last()) {
            Some(p) => prev.push(p),
            None => prev,
        }
    }
}

/// The mount paths of a listing: its first line is a header.
pub open spec fn listing_mount_paths(platform: Platform, text: Seq<char>) -> Seq<Seq<char>> {
    mount_paths(platform, lines_of(text).drop_first())
}

/// What follows the last `'/'` of `p`, or all of `p` if it has none.
pub open spec fn last_segment(p: Seq<char>) -> Seq<char>
    decreases p.len(),
{
    if p.len() == 0 {
        p
    } else if p.last() == '/' {
        Seq::empty()
    } else {
        last_segment(p.drop_last()).push(p.last())
    }
}

/// The device name of a mount path: its last segment, or `"Unknown"` for an
/// empty path.
pub open spec fn device_name_of(p: Seq<char>) -> Seq<char> {
    if p.len() == 0 {
        "Unknown"@
    } else {
        last_segment(p)
    }
}

/// The mount points of a listing, as views.
pub open spec fn listing_mounts(platform: Platform, text: Seq<char>) -> Seq<(Seq<char>, Seq<char>)> {
    listing_mount_paths(platform, text).map_values(|p: Seq<char>| (p, device_name_of(p)))
}

/// The mount points in `r` are exactly those of the listing `text`.
pub open spec fn parsed_as(r: Seq<MountPoint>, platform: Platform, text: Seq<char>) -> bool {
    r.map_values(|m: MountPoint| m@) == listing_mounts(platform, text)
}

/// The first mount point, by index, whose device name contains `pattern`.
pub open spec fn is_first_match(mounts: Seq<(Seq<char>, Seq<char>)>, pattern: Seq<char>, i: int) -> bool {
    &&& 0 <= i < mounts.len()
    &&& contains(mounts[i].1, pattern)
    &&& forall|j: int| 0 <= j < i ==> !contains(#[trigger] mounts[j].1, pattern)
}

/// The outcome of a search for `pattern` in `mounts`.
pub open spec fn discovery_of(
    r: DeviceDiscovery,
    mounts: Seq<(Seq<char>, Seq<char>)>,
    pattern: Seq<char>,
) -> bool {
    match r {
        DeviceDiscovery::NotFound => forall|i: int|
            0 <= i < mounts.len() ==> !contains(#[trigger] mounts[i].1, pattern),
        DeviceDiscovery::Found(m) => exists|i: int|
            is_first_match(mounts, pattern, i) && m@ == #[trigger] mounts[i],
    }
}

/// The device name of `path`: the text after its last `'/'`, all of it if
/// there is none, and `"Unknown"` if `path` is empty.
pub fn extract_device_name(path: &str) -> (r: String)
    ensures
        r@ == device_name_of(path@),
{
    let cs = chars_of(path);
    let n = cs.len();
    if n == 0 {
        return String::from_str("Unknown");
    }
    let mut start: usize = 0;
    let mut i: usize = 0;
    while i < n
        invariant
            n == cs@.len(),
            cs@ == path@,
            start <= i <= n,
            last_segment(cs@.subrange(0, i as int)) == cs@.subrange(start as int, i as int),
        decreases n - i,
    {
        assert(cs@.subrange(0, i + 1).drop_last() =~= cs@.subrange(0, i as int));
        if cs[i] == '/' {
            start = i + 1;
            assert(cs@.subrange(start as int, i + 1) =~= Seq::<char>::empty());
        } else {
            assert(cs@.subrange(start as int, i + 1) =~= cs@.subrange(start as int, i as int).push(
                cs@[i as int],
            ));
        }
        i = i + 1;
    }
    assert(cs@.subrange(0, n as int) =~= cs@);
    String::from_str(path.substring_char(start, n))
}


/// The start and end of each line of `cs`, as character indices.
fn line_bounds(cs: &Vec<char>) -> (r: Vec<(usize, usize)>)
    ensures
        r@.len() == lines_of(cs@).len(),
        forall|k: int|
            0 <= k < r@.len() ==> {
                let (a, b) = #[trigger] r@[k];
                &&& a <= b <= cs@.len()
                &&& cs@.subrange(a as int, b as int) == lines_of(cs@)[k]
            },
{
    let n = cs.len();
    let mut r: Vec<(usize, usize)> = Vec::new();
    let mut cur: usize = 0;
    let mut i: usize = 0;
    assert(cs@.subrange(0, 0) =~= Seq::<char>::empty());
    while i < n
        invariant
            n == cs@.len(),
            cur <= i <= n,
            lines_of(cs@.subrange(0, i as int)).len() == r@.len() + 1,
            lines_of(cs@.subrange(0, i as int))[r@.len() as int] == cs@.subrange(
                cur as int,
                i as int,
            ),
            forall|k: int|
                0 <= k < r@.len() ==> {
                    let (a, b) = #[trigger] r@[k];
                    &&& a <= b <= i
                    &&& cs@.subrange(a as int, b as int) == lines_of(cs@.subrange(0, i as int))[k]
                },
        decreases n - i,
    {
        let ghost prev = lines_of(cs@.subrange(0, i as int));
        assert(cs@.subrange(0, i + 1).drop_last() =~= cs@.subrange(0, i as int));
        if cs[i] == '\n' {
            r.push((cur, i));
            cur = i + 1;
            assert(cs@.subrange(cur as int, i + 1) =~= Seq::<char>::empty());
        } else {
            assert(cs@.subrange(cur as int, i + 1) =~= cs@.subrange(cur as int, i as int).push(
                cs@[i as int],
            ));
        }
        i = i + 1;
    }
    assert(cs@.subrange(0, n as int) =~= cs@);
    r.push((cur, n));
    r
}

/// `a` is a prefix of `b`.
pub open spec fn is_prefix_of<T>(a: Seq<T>, b: Seq<T>) -> bool {
    a.len() <= b.len() && forall|j: int| 0 <= j < a.len() ==> a[j] == b[j]
}

proof fn lemma_lines_nonempty(s: Seq<char>)
    ensures
        lines_of(s).len() >= 1,
    decreases s.len(),
{
    if s.len() > 0 {
        lemma_lines_nonempty(s.drop_last());
    }
}

/// The words completed on a prefix of `s` are the first words of `s`.
proof fn lemma_scan_prefix(s: Seq<char>, m: int)
    requires
        0 <= m <= s.len(),
    ensures
        is_prefix_of(word_scan(s.subrange(0, m)).0, words_of(s)),
    decreases s.len() - m,
{
    if m < s.len() {
        lemma_scan_prefix(s, m + 1);
        assert(s.subrange(0, m + 1).drop_last() =~= s.subrange(0, m));
    } else {
        assert(s.subrange(0, m) =~= s);
    }
}

/// The indices in `cs` of word `k` of the stretch `lo..hi`, if it has so many.
fn field_bounds(cs: &Vec<char>, lo: usize, hi: usize, k: usize) -> (r: Option<(usize, usize)>)
    requires
        lo <= hi <= cs@.len(),
    ensures
        ({
            let w = words_of(cs@.subrange(lo as int, hi as int));
            match r {
                Some((a, b)) => k < w.len() && lo <= a <= b <= hi && cs@.subrange(a as int, b as int)
                    == w[k as int],
                None => w.len() <= k,
            }
        }),
{
    let mut count: usize = 0;
    let mut in_word = false;
    let mut start: usize = lo;
    let mut i: usize = lo;
    assert(cs@.subrange(lo as int, lo as int) =~= Seq::<char>::empty());
    while i < hi
        invariant
            lo <= start <= i <= hi <= cs@.len(),
            count <= k,
            ({
                let (done, cur) = word_scan(cs@.subrange(lo as int, i as int));
                &&& done.len() == count
                &&& in_word <==> cur.len() > 0
                &&& in_word ==> cur == cs@.subrange(start as int, i as int)
            }),
        decreases hi - i,
    {
        assert(cs@.subrange(lo as int, i + 1).drop_last() =~= cs@.subrange(lo as int, i as int));
        if is_space_char(cs[i]) {
            if in_word {
                if count == k {
                    proof {
                        let w = cs@.subrange(lo as int, hi as int);
                        assert(w.subrange(0, i + 1 - lo) =~= cs@.subrange(lo as int, i + 1));
                        lemma_scan_prefix(w, i + 1 - lo);
                    }
                    return Some((start, i));
                }
                count = count + 1;
                in_word = false;
            }
        } else {
            if !in_word {
                start = i;
                in_word = true;
                assert(cs@.subrange(start as int, i + 1) =~= seq![cs@[i as int]]);
            } else {
                assert(cs@.subrange(start as int, i + 1) =~= cs@.subrange(start as int, i as int).push(
                    cs@[i as int],
                ));
            }
        }
        i = i + 1;
    }
    if in_word && count == k {
        return Some((start, hi));
    }
    None
}

/// The mount points of the listing `text` on `platform`, in row order.
fn collect_mount_points(text: &str, platform: Platform) -> (r: Vec<MountPoint>)
    ensures
        parsed_as(r@, platform, text@),
{
    let cs = chars_of(text);
    let lines = line_bounds(&cs);
    proof {
        lemma_lines_nonempty(cs@);
    }
    let volume = chars_of("Volume");
    let media = chars_of("/media/");
    let mnt = chars_of("/mnt/");
    let ghost rows = lines_of(cs@).drop_first();
    let mut r: Vec<MountPoint> = Vec::new();
    let mut i: usize = 1;
    assert(rows.subrange(0, 0) =~= Seq::<Seq<char>>::empty());
    while i < lines.len()
        invariant
            cs@ == text@,
            lines@.len() == lines_of(cs@).len(),
            1 <= i <= lines@.len(),
            rows == lines_of(cs@).drop_first(),
            volume@ == "Volume"@,
            media@ == "/media/"@,
            mnt@ == "/mnt/"@,
            forall|k: int|
                0 <= k < lines@.len() ==> {
                    let (a, b) = #[trigger] lines@[k];
                    &&& a <= b <= cs@.len()
                    &&& cs@.subrange(a as int, b as int) == lines_of(cs@)[k]
                },
            r@.map_values(|m: MountPoint| m@) == mount_paths(
                platform,
                rows.subrange(0, i - 1),
            ).map_values(|p: Seq<char>| (p, device_name_of(p))),
        decreases lines@.len() - i,
    {
        let (a, b) = lines[i];
        let ghost row = lines_of(cs@)[i as int];
        assert(rows.subrange(0, i as int).drop_last() =~= rows.subrange(0, i - 1));
        assert(rows.subrange(0, i as int).last() == row);
        let col: usize = match platform {
            Platform::MacOS => 8,
            Platform::Linux => 5,
            Platform::Windows => 0,
        };
        let picked = match platform {
            Platform::Windows => None,
            _ => field_bounds(&cs, a, b, col),
        };
        let mut keep = false;
        if let Some((fa, fb)) = picked {
            let ghost field = cs@.subrange(fa as int, fb as int);
            let word: Vec<char> = slice_chars(&cs, fa, fb);
            keep = match platform {
                Platform::MacOS => contains_exec(word.as_slice(), volume.as_slice()),
                Platform::Linux => starts_with_exec(word.as_slice(), media.as_slice())
                    || starts_with_exec(word.as_slice(), mnt.as_slice()),
                Platform::Windows => false,
            };
            if keep {
                let path = String::from_str(text.substring_char(fa, fb));
                let device_name = extract_device_name(path.as_str());
                let ghost old_r = r@;
                r.push(MountPoint { path, device_name });
                assert(r@.map_values(|m: MountPoint| m@) =~= old_r.map_values(|m: MountPoint| m@).push(
                    (field, device_name_of(field)),
                ));
            }
        }
        assert(row_mount_path(platform, row) is Some == keep);
        i = i + 1;
    }
    assert(rows.subrange(0, rows.len() as int) =~= rows);
    r
}

/// The characters `lo..hi` of `cs`.
fn slice_chars(cs: &Vec<char>, lo: usize, hi: usize) -> (r: Vec<char>)
    requires
        lo <= hi <= cs@.len(),
    ensures
        r@ == cs@.subrange(lo as int, hi as int),
{
    let mut r: Vec<char> = Vec::new();
    let mut i: usize = lo;
    while i < hi
        invariant
            lo <= i <= hi <= cs@.len(),
            r@ == cs@.subrange(lo as int, i as int),
        decreases hi - i,
    {
        r.push(cs[i]);
        i = i + 1;
    }
    r
}

/// Whether `s` and `t` hold the same characters.
fn same_chars(s: &[char], t: &[char]) -> (r: bool)
    ensures
        r == (s@ == t@),
{
    let r = s.len() == t.len() && starts_with_exec(s, t);
    proof {
        if s@.len() == t@.len() {
            assert(s@.subrange(0, t@.len() as int) =~= s@);
        }
    }
    r
}

/// The platform for an operating-system name as Rust's target names have it
/// (`"macos"`, `"linux"`, `"windows"`); any other name gets `Linux`.
pub fn detect_platform(os: &str) -> (r: Platform)
    ensures
        r == platform_of(os@),
{
    let cs = chars_of(os);
    if same_chars(cs.as_slice(), chars_of("macos").as_slice()) {
        Platform::MacOS
    } else if same_chars(cs.as_slice(), chars_of("windows").as_slice()) {
        Platform::Windows
    } else {
        Platform::Linux
    }
}

/// The mount points of a disk-usage listing on `platform`: one for each row
/// after the header whose mount-path column qualifies, in row order.
pub fn parse_mount_points(df_output: &str, platform: Platform) -> (r: Vec<MountPoint>)
    ensures
        parsed_as(r@, platform, df_output@),
{
    match platform {
        Platform::MacOS => parse_macos_mount_points(df_output),
        Platform::Linux => parse_linux_mount_points(df_output),
        Platform::Windows => {
            let r = parse_windows_mount_points(df_output);
            proof {
                lemma_no_windows_rows(lines_of(df_output@).drop_first());
                assert(r@.map_values(|m: MountPoint| m@) =~= listing_mounts(
                    platform,
                    df_output@,
                ));
            }
            r
        },
    }
}

/// macOS listings: the mount path is the ninth column, and the row counts
/// when that column contains `"Volume"`.
pub fn parse_macos_mount_points(df_output: &str) -> (r: Vec<MountPoint>)
    ensures
        parsed_as(r@, Platform::MacOS, df_output@),
{
    collect_mount_points(df_output, Platform::MacOS)
}

/// Linux listings: the mount path is the sixth column, and the row counts
/// when that column starts with `"/media/"` or `"/mnt/"`.
pub fn parse_linux_mount_points(df_output: &str) -> (r: Vec<MountPoint>)
    ensures
        parsed_as(r@, Platform::Linux, df_output@),
{
    collect_mount_points(df_output, Platform::Linux)
}

/// Windows listings are not read: no mount point comes from them.
pub fn parse_windows_mount_points(df_output: &str) -> (r: Vec<MountPoint>)
    ensures
        r@.len() == 0,
{
    Vec::new()
}

proof fn lemma_no_windows_rows(rows: Seq<Seq<char>>)
    ensures
        mount_paths(Platform::Windows, rows).len() == 0,
    decreases rows.len(),
{
    if rows.len() > 0 {
        lemma_no_windows_rows(rows.drop_last());
    }
}

/// A path is among the mount paths of `rows` exactly when some row yields it.
pub proof fn lemma_mount_paths_from_rows(platform: Platform, rows: Seq<Seq<char>>, p: Seq<char>)
    ensures
        mount_paths(platform, rows).contains(p) <==> exists|j: int|
            0 <= j < rows.len() && row_mount_path(platform, #[trigger] rows[j]) == Some(p),
    decreases rows.len(),
{
    if rows.len() > 0 {
        let init = rows.drop_last();
        lemma_mount_paths_from_rows(platform, init, p);
        if mount_paths(platform, rows).contains(p) {
            if !mount_paths(platform, init).contains(p) {
                let k = mount_paths(platform, rows).len() - 1;
                assert(mount_paths(platform, rows)[k] == p);
                assert(row_mount_path(platform, rows[rows.len() - 1]) == Some(p));
            } else {
                let j = choose|j: int|
                    0 <= j < init.len() && row_mount_path(platform, #[trigger] init[j]) == Some(p);
                assert(rows[j] == init[j]);
            }
        }
        if exists|j: int|
            0 <= j < rows.len() && row_mount_path(platform, #[trigger] rows[j]) == Some(p) {
            let j = choose|j: int|
                0 <= j < rows.len() && row_mount_path(platform, #[trigger] rows[j]) == Some(p);
            if j < init.len() {
                assert(init[j] == rows[j]);
                let i = choose|i: int| 0 <= i < mount_paths(platform, init).len() && mount_paths(platform, init)[i] == p;
                assert(mount_paths(platform, rows)[i] == p);
            } else {
                assert(mount_paths(platform, rows).last() == p);
            }
        }
    }
}

/// On a macOS listing, a path is a parsed mount path exactly when some row
/// after the header has a ninth column that is that path and contains
/// `"Volume"`. Rows with fewer columns yield nothing and fail nothing.
pub proof fn lemma_macos_row_inclusion(text: Seq<char>, p: Seq<char>)
    ensures
        listing_mount_paths(Platform::MacOS, text).contains(p) <==> exists|j: int|
            1 <= j < lines_of(text).len() && words_of(#[trigger] lines_of(text)[j]).len() > 8
                && words_of(lines_of(text)[j])[8] == p && contains(p, "Volume"@),
{
    lemma_lines_nonempty(text);
    let rows = lines_of(text).drop_first();
    lemma_mount_paths_from_rows(Platform::MacOS, rows, p);
    if exists|j: int|
        1 <= j < lines_of(text).len() && words_of(#[trigger] lines_of(text)[j]).len() > 8
            && words_of(lines_of(text)[j])[8] == p && contains(p, "Volume"@) {
        let j = choose|j: int|
            1 <= j < lines_of(text).len() && words_of(#[trigger] lines_of(text)[j]).len() > 8
                && words_of(lines_of(text)[j])[8] == p && contains(p, "Volume"@);
        assert(rows[j - 1] == lines_of(text)[j]);
    }
    if listing_mount_paths(Platform::MacOS, text).contains(p) {
        let j = choose|j: int|
            0 <= j < rows.len() && row_mount_path(Platform::MacOS, #[trigger] rows[j]) == Some(p);
        assert(rows[j] == lines_of(text)[j + 1]);
    }
}

/// On a Linux listing, a path is a parsed mount path exactly when some row
/// after the header has a sixth column that is that path and starts with
/// `"/media/"` or `"/mnt/"`.
pub proof fn lemma_linux_row_inclusion(text: Seq<char>, p: Seq<char>)
    ensures
        listing_mount_paths(Platform::Linux, text).contains(p) <==> exists|j: int|
            1 <= j < lines_of(text).len() && words_of(#[trigger] lines_of(text)[j]).len() > 5
                && words_of(lines_of(text)[j])[5] == p && (starts_with(p, "/media/"@)
                || starts_with(p, "/mnt/"@)),
{
    lemma_lines_nonempty(text);
    let rows = lines_of(text).drop_first();
    lemma_mount_paths_from_rows(Platform::Linux, rows, p);
    if exists|j: int|
        1 <= j < lines_of(text).len() && words_of(#[trigger] lines_of(text)[j]).len() > 5
            && words_of(lines_of(text)[j])[5] == p && (starts_with(p, "/media/"@) || starts_with(
            p,
            "/mnt/"@,
        )) {
        let j = choose|j: int|
            1 <= j < lines_of(text).len() && words_of(#[trigger] lines_of(text)[j]).len() > 5
                && words_of(lines_of(text)[j])[5] == p && (starts_with(p, "/media/"@)
                || starts_with(p, "/mnt/"@));
        assert(rows[j - 1] == lines_of(text)[j]);
    }
    if listing_mount_paths(Platform::Linux, text).contains(p) {
        let j = choose|j: int|
            0 <= j < rows.len() && row_mount_path(Platform::Linux, #[trigger] rows[j]) == Some(p);
        assert(rows[j] == lines_of(text)[j + 1]);
    }
}

/// The first mount point, in the given order, whose device name contains
/// `pattern` (case-sensitive), or `NotFound` if none does.
pub fn find_device(mount_points: Vec<MountPoint>, pattern: &str) -> (r: DeviceDiscovery)
    ensures
        discovery_of(r, mount_points@.map_values(|m: MountPoint| m@), pattern@),
{
    let ghost mounts = mount_points@.map_values(|m: MountPoint| m@);
    let pat = chars_of(pattern);
    let mut i: usize = 0;
    while i < mount_points.len()
        invariant
            pat@ == pattern@,
            mounts == mount_points@.map_values(|m: MountPoint| m@),
            i <= mount_points@.len(),
            forall|j: int| 0 <= j < i ==> !contains(#[trigger] mounts[j].1, pattern@),
        decreases mount_points@.len() - i,
    {
        let name = chars_of(mount_points[i].device_name.as_str());
        if contains_exec(name.as_slice(), pat.as_slice()) {
            let mut rest = mount_points;
            let m = rest.remove(i);
            assert(is_first_match(mounts, pattern@, i as int) && m@ == mounts[i as int]);
            return DeviceDiscovery::Found(m);
        }
        i = i + 1;
    }
    DeviceDiscovery::NotFound
}

} // verus!
