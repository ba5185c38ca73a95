//! Locating a system Widevine CDM.
//!
//! The CDM is Google's proprietary binary and is never shipped with kopuz: it
//! is borrowed from a browser the user already has installed. Two layouts exist
//! in the wild and both are handled by searching each root for the platform's
//! CDM file name rather than by encoding directory shapes:
//!
//! * Firefox family: a GMP plugin at `<profile>/gmp-widevinecdm/<version>/`.
//! * Chromium family: `<root>/WidevineCdm/<version>/_platform_specific/<plat>/`.
//!
//! Walking the directories and reading the environment are the caller's; which
//! roots to walk, how deep, and which of the files found wins are decided here.

use vstd::prelude::*;

use crate::text::{decimal, lemma_decimal_spells_the_number, spelled_number, split_text, split_where, Separator};

verus! {

/// The operating systems whose browsers are searched.
#[derive(Clone, Copy, Debug, PartialEq, Eq, Structural)]
pub enum Platform {
    Linux,
    MacOs,
    Windows,
    /// Anything else: no browser layout is known, so there is nothing to search.
    Other,
}

/// The CDM's file name on `platform`.
pub fn cdm_file_name(platform: Platform) -> (r: &'static str)
    ensures
        r@ == match platform {
            Platform::Windows => "widevinecdm.dll"@,
            Platform::MacOs => "libwidevinecdm.dylib"@,
            _ => "libwidevinecdm.so"@,
        },
{
    match platform {
        Platform::Windows => "widevinecdm.dll",
        Platform::MacOs => "libwidevinecdm.dylib",
        _ => "libwidevinecdm.so",
    }
}

/// How deep to search under a root. Chromium's layout is the deeper of the two
/// (`<version>/_platform_specific/<plat>/`), and a bound keeps a stray root from
/// turning discovery into a full-disk walk.
pub const MAX_SEARCH_DEPTH: usize = 4;

/// Whether a character is an ASCII digit.
pub open spec fn ascii_digit(c: char) -> bool {
    '0' as u32 <= c as u32 && c as u32 <= '9' as u32
}

/// Whether a text is a non-empty run of ASCII digits.
pub open spec fn all_digits(p: Seq<char>) -> bool {
    p.len() > 0 && forall|i: int| 0 <= i < p.len() ==> ascii_digit(#[trigger] p[i])
}

/// Whether a path component names a version, such as `4.10.2891.0`: at least
/// three dot-separated parts, each a non-empty run of ASCII digits.
pub open spec fn version_component(c: Seq<char>) -> bool {
    let parts = split_where(c, Separator::Dot);
    parts.len() >= 3 && forall|k: int| 0 <= k < parts.len() ==> all_digits(#[trigger] parts[k])
}

/// The number a run of ASCII digits spells in decimal.
pub open spec fn digits_value(p: Seq<char>) -> nat
    decreases p.len(),
{
    if p.len() == 0 {
        0
    } else {
        digits_value(p.drop_last()) * 10 + (p.last() as u32 - '0' as u32) as nat
    }
}

/// The numbers that a version's parts spell, leaving out any too large for a
/// `u64`.
pub open spec fn parts_values(parts: Seq<Seq<char>>) -> Seq<u64>
    decreases parts.len(),
{
    if parts.len() == 0 {
        Seq::empty()
    } else {
        let before = parts_values(parts.drop_last());
        if digits_value(parts.last()) <= u64::MAX {
            before.push(digits_value(parts.last()) as u64)
        } else {
            before
        }
    }
}

/// Whether `k` is the first of `components` that names a version.
pub open spec fn first_version_component(components: Seq<Seq<char>>, k: int) -> bool {
    &&& 0 <= k < components.len()
    &&& version_component(components[k])
    &&& forall|j: int| 0 <= j < k ==> !version_component(#[trigger] components[j])
}

/// The version a CDM path carries: the numbers of its first component that
/// names a version, or nothing when none does.
pub open spec fn version_key_spec(path: Seq<char>, platform: Platform) -> Seq<u64> {
    let components = split_where(path, path_separator(platform));
    if exists|k: int| first_version_component(components, k) {
        let k = choose|k: int| first_version_component(components, k);
        parts_values(split_where(components[k], Separator::Dot))
    } else {
        Seq::empty()
    }
}

fn is_digits(p: &str) -> (r: bool)
    ensures
        r == all_digits(p@),
{
    let n = p.unicode_len();
    if n == 0 {
        return false;
    }
    let mut i: usize = 0;
    while i < n
        invariant
            n == p@.len(),
            i <= n,
            forall|j: int| 0 <= j < i ==> ascii_digit(#[trigger] p@[j]),
        decreases n - i,
    {
        let c = p.get_char(i);
        if !('0' as u32 <= c as u32 && c as u32 <= '9' as u32) {
            return false;
        }
        i += 1;
    }
    true
}

fn is_version_component(c: &str) -> (r: bool)
    ensures
        r == version_component(c@),
{
    let parts = split_text(c, Separator::Dot);
    if parts.len() < 3 {
        return false;
    }
    let mut k: usize = 0;
    while k < parts.len()
        invariant
            parts.deep_view() == split_where(c@, Separator::Dot),
            k <= parts@.len(),
            forall|j: int| 0 <= j < k ==> all_digits(#[trigger] parts.deep_view()[j]),
        decreases parts@.len() - k,
    {
        assert(parts.deep_view()[k as int] == parts@[k as int]@);
        if !is_digits(parts[k].as_str()) {
            return false;
        }
        k += 1;
    }
    true
}

/// Reading digits back gives the number they were written for: the value of
/// a number's decimal digits is that number.
pub proof fn lemma_digits_read_back_the_number(n: nat)
    ensures
        all_digits(decimal(n)),
        digits_value(decimal(n)) == n,
{
    lemma_decimal_spells_the_number(n);
    lemma_digits_value_is_spelled(decimal(n));
}

proof fn lemma_digits_value_is_spelled(p: Seq<char>)
    requires
        forall|i: int| 0 <= i < p.len() ==> '0' <= #[trigger] p[i] <= '9',
    ensures
        digits_value(p) == spelled_number(p),
    decreases p.len(),
{
    if p.len() > 0 {
        assert forall|i: int| 0 <= i < p.drop_last().len() implies '0' <= #[trigger] p.drop_last()[i] <= '9' by {
            assert(p.drop_last()[i] == p[i]);
        }
        lemma_digits_value_is_spelled(p.drop_last());
        assert('0' <= p[p.len() - 1] <= '9');
    }
}

proof fn lemma_digits_value_grows(p: Seq<char>, i: int)
    requires
        0 <= i <= p.len(),
    ensures
        digits_value(p.take(i)) <= digits_value(p),
    decreases p.len(),
{
    if i < p.len() {
        lemma_digits_value_grows(p.drop_last(), i);
        assert(p.drop_last().take(i) =~= p.take(i));
    } else {
        assert(p.take(i) =~= p);
    }
}

/// The number a run of ASCII digits spells, or `None` when it is too large
/// for a `u64`.
fn parse_digits(p: &str) -> (r: Option<u64>)
    requires
        all_digits(p@),
    ensures
        match r {
            Some(v) => v == digits_value(p@),
            None => digits_value(p@) > u64::MAX,
        },
{
    let n = p.unicode_len();
    let mut value: u64 = 0;
    let mut i: usize = 0;
    while i < n
        invariant
            n == p@.len(),
            i <= n,
            all_digits(p@),
            value == digits_value(p@.take(i as int)),
        decreases n - i,
    {
        let c = p.get_char(i);
        let digit: u64 = (c as u32 - '0' as u32) as u64;
        proof {
            assert(p@.take(i + 1).drop_last() =~= p@.take(i as int));
            assert(ascii_digit(p@[i as int]));
        }
        let next = match value.checked_mul(10) {
            Some(tens) => tens.checked_add(digit),
            None => None,
        };
        match next {
            Some(v) => {
                value = v;
            },
            None => {
                proof {
                    lemma_digits_value_grows(p@, i + 1);
                }
                return None;
            },
        }
        i += 1;
    }
    assert(p@.take(n as int) =~= p@);
    Some(value)
}

fn parts_values_of(parts: &Vec<String>) -> (r: Vec<u64>)
    requires
        forall|k: int| 0 <= k < parts.deep_view().len() ==> all_digits(#[trigger] parts.deep_view()[k]),
    ensures
        r@ == parts_values(parts.deep_view()),
{
    let mut values: Vec<u64> = Vec::new();
    let mut k: usize = 0;
    while k < parts.len()
        invariant
            k <= parts@.len(),
            forall|j: int| 0 <= j < parts.deep_view().len() ==> all_digits(#[trigger] parts.deep_view()[j]),
            values@ == parts_values(parts.deep_view().take(k as int)),
        decreases parts@.len() - k,
    {
        assert(parts.deep_view()[k as int] == parts@[k as int]@);
        assert(all_digits(parts.deep_view()[k as int]));
        proof {
            assert(parts.deep_view().take(k + 1).drop_last() =~= parts.deep_view().take(k as int));
        }
        match parse_digits(parts[k].as_str()) {
            Some(v) => values.push(v),
            None => {},
        }
        k += 1;
    }
    assert(parts.deep_view().take(k as int) =~= parts.deep_view());
    values
}

/// What separates the components of a path on `platform`: `/`, and on
/// Windows `\` too.
pub open spec fn path_separator(platform: Platform) -> Separator {
    if platform == Platform::Windows {
        Separator::SlashOrBackslash
    } else {
        Separator::Slash
    }
}

fn path_separator_of(platform: Platform) -> (r: Separator)
    ensures
        r == path_separator(platform),
{
    match platform {
        Platform::Windows => Separator::SlashOrBackslash,
        _ => Separator::Slash,
    }
}

/// The version a CDM path on `platform` carries, to order paths by, newest
/// last.
///
/// Versions appear as a path component (`4.10.2891.0`, `4.10.3050.0`), so a
/// plain string sort would rank `4.10.999` above `4.10.3050`: the dotted
/// components are compared numerically instead.
pub fn version_key(path: &str, platform: Platform) -> (r: Vec<u64>)
    ensures
        r@ == version_key_spec(path@, platform),
{
    let components = split_text(path, path_separator_of(platform));
    let mut k: usize = 0;
    while k < components.len()
        invariant
            components.deep_view() == split_where(path@, path_separator(platform)),
            k <= components@.len(),
            forall|j: int| 0 <= j < k ==> !version_component(#[trigger] components.deep_view()[j]),
        decreases components@.len() - k,
    {
        assert(components.deep_view()[k as int] == components@[k as int]@);
        if is_version_component(components[k].as_str()) {
            proof {
                assert(first_version_component(components.deep_view(), k as int));
                let c = choose|c: int| first_version_component(components.deep_view(), c);
                assert(c == k);
            }
            let parts = split_text(components[k].as_str(), Separator::Dot);
            return parts_values_of(&parts);
        }
        k += 1;
    }
    Vec::new()
}

/// Versions ordered as `Vec<u64>` orders them: number by number, and a
/// version that is a prefix of another first.
pub open spec fn key_le(a: Seq<u64>, b: Seq<u64>) -> bool
    decreases a.len(),
{
    if a.len() == 0 {
        true
    } else if b.len() == 0 {
        false
    } else if a[0] != b[0] {
        a[0] < b[0]
    } else {
        key_le(a.drop_first(), b.drop_first())
    }
}

/// Versions compare number by number from the first: where two versions
/// first differ, the one with the smaller number there is the older, whatever
/// follows.
pub proof fn lemma_key_le_first_difference(a: Seq<u64>, b: Seq<u64>, i: int)
    requires
        0 <= i < a.len(),
        i < b.len(),
        a.take(i) == b.take(i),
        a[i] != b[i],
    ensures
        key_le(a, b) == (a[i] < b[i]),
        key_le(b, a) == (b[i] < a[i]),
    decreases i,
{
    if i > 0 {
        assert(a.take(i)[0] == a[0]);
        assert(b.take(i)[0] == b[0]);
        assert(a.drop_first().take(i - 1) =~= a.take(i).drop_first());
        assert(b.drop_first().take(i - 1) =~= b.take(i).drop_first());
        lemma_key_le_first_difference(a.drop_first(), b.drop_first(), i - 1);
    }
}

/// A version is at most every version it begins: `4.10` is at most `4.10.1`,
/// and every version is at most itself.
pub proof fn lemma_key_le_prefix(a: Seq<u64>, b: Seq<u64>)
    requires
        a.len() <= b.len(),
        b.take(a.len() as int) == a,
    ensures
        key_le(a, b),
    decreases a.len(),
{
    if a.len() > 0 {
        assert(b.take(a.len() as int)[0] == b[0]);
        assert(b.drop_first().take(a.len() - 1) =~= b.take(a.len() as int).drop_first());
        lemma_key_le_prefix(a.drop_first(), b.drop_first());
    }
}

/// The version order is total: of two versions, one is at most the other.
pub proof fn lemma_key_le_total(a: Seq<u64>, b: Seq<u64>)
    ensures
        key_le(a, b) || key_le(b, a),
    decreases a.len(),
{
    if a.len() > 0 && b.len() > 0 && a[0] == b[0] {
        lemma_key_le_total(a.drop_first(), b.drop_first());
    }
}

/// The version order is transitive.
pub proof fn lemma_key_le_transitive(a: Seq<u64>, b: Seq<u64>, c: Seq<u64>)
    requires
        key_le(a, b),
        key_le(b, c),
    ensures
        key_le(a, c),
    decreases a.len(),
{
    if a.len() > 0 && b.len() > 0 && c.len() > 0 && a[0] == b[0] && b[0] == c[0] {
        lemma_key_le_transitive(a.drop_first(), b.drop_first(), c.drop_first());
    }
}

/// The version order is antisymmetric: versions each at most the other are
/// the same version.
pub proof fn lemma_key_le_antisymmetric(a: Seq<u64>, b: Seq<u64>)
    requires
        key_le(a, b),
        key_le(b, a),
    ensures
        a == b,
    decreases a.len(),
{
    if a.len() > 0 && b.len() > 0 {
        lemma_key_le_antisymmetric(a.drop_first(), b.drop_first());
        assert(a =~= seq![a[0]] + a.drop_first());
        assert(b =~= seq![b[0]] + b.drop_first());
    } else {
        assert(a =~= b);
    }
}

/// Whether version `a` is at most version `b`.
pub fn version_at_most(a: &Vec<u64>, b: &Vec<u64>) -> (r: bool)
    ensures
        r == key_le(a@, b@),
{
    let mut i: usize = 0;
    assert(a@.skip(0) =~= a@);
    assert(b@.skip(0) =~= b@);
    while i < a.len() && i < b.len()
        invariant
            i <= a@.len(),
            i <= b@.len(),
            key_le(a@, b@) == key_le(a@.skip(i as int), b@.skip(i as int)),
        decreases a@.len() - i,
    {
        if a[i] != b[i] {
            return a[i] < b[i];
        }
        proof {
            assert(a@.skip(i as int).drop_first() =~= a@.skip(i + 1));
            assert(b@.skip(i as int).drop_first() =~= b@.skip(i + 1));
        }
        i += 1;
    }
    i == a.len()
}

/// The versions of a list of CDM paths.
pub open spec fn version_keys(paths: Seq<Seq<char>>, platform: Platform) -> Seq<Seq<u64>> {
    Seq::new(paths.len(), |i: int| version_key_spec(paths[i], platform))
}

/// Whether `i` is the newest of `keys`: no other is newer, and each one after
/// it is older. This is the one a stable sort by version leaves last.
pub open spec fn newest_index(keys: Seq<Seq<u64>>, i: int) -> bool {
    &&& 0 <= i < keys.len()
    &&& forall|j: int| 0 <= j < keys.len() ==> key_le(#[trigger] keys[j], keys[i])
    &&& forall|j: int| i < j < keys.len() ==> !key_le(keys[i], #[trigger] keys[j])
}

/// Every nonempty list of versions has a newest one.
pub proof fn lemma_newest_index_exists(keys: Seq<Seq<u64>>)
    requires
        keys.len() > 0,
    ensures
        exists|i: int| newest_index(keys, i),
    decreases keys.len(),
{
    let n = keys.len() - 1;
    if n == 0 {
        lemma_key_le_total(keys[0], keys[0]);
        assert(newest_index(keys, 0));
    } else {
        let prefix = keys.drop_last();
        lemma_newest_index_exists(prefix);
        let i = choose|i: int| newest_index(prefix, i);
        assert(forall|j: int| 0 <= j < n ==> keys[j] == prefix[j]);
        if key_le(keys[i], keys[n]) {
            assert forall|j: int| 0 <= j < keys.len() implies key_le(#[trigger] keys[j], keys[n]) by {
                if j < n {
                    assert(key_le(prefix[j], prefix[i]));
                    lemma_key_le_transitive(keys[j], keys[i], keys[n]);
                } else {
                    lemma_key_le_total(keys[n], keys[n]);
                }
            }
            assert(newest_index(keys, n));
        } else {
            lemma_key_le_total(keys[i], keys[n]);
            assert forall|j: int| 0 <= j < keys.len() implies key_le(#[trigger] keys[j], keys[i]) by {
                if j < n {
                    assert(key_le(prefix[j], prefix[i]));
                }
            }
            assert forall|j: int| i < j < keys.len() implies !key_le(keys[i], #[trigger] keys[j]) by {
                if j < n {
                    assert(!key_le(prefix[i], prefix[j]));
                }
            }
            assert(newest_index(keys, i));
        }
    }
}

/// The CDM picked from those found is one of them, and no other found CDM
/// has a newer version; of equally new ones the last found is picked.
pub proof fn lemma_newest_of_is_the_newest(found: Seq<Seq<char>>, platform: Platform, j: int)
    requires
        found.len() > 0,
        0 <= j < found.len(),
    ensures
        newest_of(found, platform) matches Some(path) && exists|i: int| {
            &&& 0 <= i < found.len()
            &&& found[i] == path
            &&& key_le(version_key_spec(found[j], platform), version_key_spec(found[i], platform))
            &&& (i < j ==> !key_le(version_key_spec(found[i], platform), version_key_spec(found[j], platform)))
        },
{
    let keys = version_keys(found, platform);
    lemma_newest_index_exists(keys);
    let i = choose|i: int| newest_index(keys, i);
    assert(keys[j] == version_key_spec(found[j], platform));
    assert(keys[i] == version_key_spec(found[i], platform));
    assert(key_le(keys[j], keys[i]));
}

/// Of several newest candidates there is only one.
pub proof fn lemma_newest_index_unique(keys: Seq<Seq<u64>>, i: int, k: int)
    requires
        newest_index(keys, i),
        newest_index(keys, k),
    ensures
        i == k,
{
    if i < k {
        assert(key_le(keys[i], keys[k]));
    } else if k < i {
        assert(key_le(keys[k], keys[i]));
    }
}

/// The newest of the CDM paths found, as [`newest_cdm`] picks it.
pub open spec fn newest_of(found: Seq<Seq<char>>, platform: Platform) -> Option<Seq<char>> {
    if found.len() == 0 {
        None
    } else {
        Some(found[choose|i: int| newest_index(version_keys(found, platform), i)])
    }
}

/// The CDM to use out of those found under one root: the one with the newest
/// version, and of several with that version the last found; `None` when
/// none was found.
pub fn newest_cdm(found: &Vec<String>, platform: Platform) -> (r: Option<String>)
    ensures
        r.deep_view() == newest_of(found.deep_view(), platform),
{
    if found.len() == 0 {
        return None;
    }
    let ghost keys = version_keys(found.deep_view(), platform);
    assert(found.deep_view()[0] == found@[0]@);
    let mut best: usize = 0;
    let mut best_key = version_key(found[0].as_str(), platform);
    proof {
        lemma_key_le_total(keys[0], keys[0]);
    }
    let mut i: usize = 1;
    while i < found.len()
        invariant
            keys == version_keys(found.deep_view(), platform),
            1 <= i <= found@.len(),
            best < i,
            best_key@ == keys[best as int],
            forall|j: int| 0 <= j < i ==> key_le(#[trigger] keys[j], keys[best as int]),
            forall|j: int| best < j < i ==> !key_le(keys[best as int], #[trigger] keys[j]),
        decreases found@.len() - i,
    {
        assert(found.deep_view()[i as int] == found@[i as int]@);
        let key = version_key(found[i].as_str(), platform);
        if version_at_most(&best_key, &key) {
            proof {
                assert forall|j: int| 0 <= j < i + 1 implies key_le(#[trigger] keys[j], keys[i as int]) by {
                    if j < i {
                        lemma_key_le_transitive(keys[j], keys[best as int], keys[i as int]);
                    } else {
                        lemma_key_le_total(keys[j], keys[j]);
                    }
                }
            }
            best = i;
            best_key = key;
        } else {
            proof {
                lemma_key_le_total(keys[best as int], keys[i as int]);
            }
        }
        i += 1;
    }
    assert(newest_index(keys, best as int));
    proof {
        let k = choose|k: int| newest_index(keys, k);
        lemma_newest_index_unique(keys, best as int, k);
    }
    Some(found[best].clone())
}

/// Where a CDM may be searched for.
#[derive(Debug)]
pub enum SearchRoot {
    /// `dir` under the directory `base`: a home or a directory the environment
    /// names.
    Under { base: String, dir: String },
    /// A directory given whole.
    At(String),
}

/// The environment's directories that search roots hang from, as read from
/// `HOME`, `USERPROFILE`, `APPDATA`, `LOCALAPPDATA`, `PROGRAMFILES` and
/// `PROGRAMFILES(X86)`.
pub struct SearchEnv {
    pub home: Option<String>,
    pub user_profile: Option<String>,
    pub app_data: Option<String>,
    pub local_app_data: Option<String>,
    pub program_files: Option<String>,
    pub program_files_x86: Option<String>,
}

/// A search root as (base directory, if any; directory under it or whole).
pub open spec fn root_view(r: SearchRoot) -> (Option<Seq<char>>, Seq<char>) {
    match r {
        SearchRoot::Under { base, dir } => (Some(base@), dir@),
        SearchRoot::At(dir) => (None, dir@),
    }
}

pub open spec fn roots_view(roots: Seq<SearchRoot>) -> Seq<(Option<Seq<char>>, Seq<char>)> {
    Seq::new(roots.len(), |i: int| root_view(roots[i]))
}

/// `dirs` under `base`, or nothing when there is no such base.
pub open spec fn under(base: Option<Seq<char>>, dirs: Seq<Seq<char>>) -> Seq<(Option<Seq<char>>, Seq<char>)> {
    match base {
        Some(b) => Seq::new(dirs.len(), |i: int| (Some(b), dirs[i])),
        None => Seq::empty(),
    }
}

/// `dirs` given whole.
pub open spec fn whole(dirs: Seq<Seq<char>>) -> Seq<(Option<Seq<char>>, Seq<char>)> {
    Seq::new(dirs.len(), |i: int| (None::<Seq<char>>, dirs[i]))
}

/// The home directory: `HOME`, else `USERPROFILE`.
pub open spec fn home_dir(env: SearchEnv) -> Option<Seq<char>> {
    match env.home {
        Some(h) => Some(h@),
        None => env.user_profile.deep_view(),
    }
}

/// The directories that may contain a CDM on `platform`, most likely first:
/// the Firefox family's profile directories (it downloads the CDM on demand
/// for anyone who has played DRM video), then the Chromium family's.
pub open spec fn search_roots_spec(platform: Platform, env: SearchEnv) -> Seq<(Option<Seq<char>>, Seq<char>)> {
    let home = home_dir(env);
    match platform {
        Platform::Linux => under(home, seq![
            ".mozilla/firefox"@, ".floorp"@, ".librewolf"@, ".waterfox"@, ".zen"@,
        ]) + under(home, seq![
            ".config/google-chrome/WidevineCdm"@,
            ".config/chromium/WidevineCdm"@,
            ".config/BraveSoftware/Brave-Browser/WidevineCdm"@,
            ".config/vivaldi/WidevineCdm"@,
            ".config/microsoft-edge/WidevineCdm"@,
            ".config/opera/WidevineCdm"@,
        ]) + whole(seq![
            "/opt/google/chrome/WidevineCdm"@,
            "/opt/brave.com/brave/WidevineCdm"@,
            "/opt/vivaldi/WidevineCdm"@,
            "/usr/lib/chromium/WidevineCdm"@,
            "/usr/lib/chromium-browser/WidevineCdm"@,
        ]),
        Platform::MacOs => under(home, seq![
            "Library/Application Support/Firefox/Profiles"@,
            "Library/Application Support/LibreWolf/Profiles"@,
            "Library/Application Support/Waterfox/Profiles"@,
            "Library/Application Support/zen/Profiles"@,
        ]) + under(home, seq![
            "Library/Application Support/Google/Chrome/WidevineCdm"@,
            "Library/Application Support/BraveSoftware/Brave-Browser/WidevineCdm"@,
            "Library/Application Support/Chromium/WidevineCdm"@,
        ]) + whole(seq![
            "/Applications/Google Chrome.app/Contents/Frameworks"@,
            "/Applications/Brave Browser.app/Contents/Frameworks"@,
        ]),
        Platform::Windows => under(env.app_data.deep_view(), seq![
            "Mozilla/Firefox/Profiles"@, "librewolf/Profiles"@, "zen/Profiles"@,
        ]) + under(env.local_app_data.deep_view(), seq![
            "Google/Chrome/User Data/WidevineCdm"@,
            "BraveSoftware/Brave-Browser/User Data/WidevineCdm"@,
            "Chromium/User Data/WidevineCdm"@,
            "Microsoft/Edge/User Data/WidevineCdm"@,
        ]) + under(env.program_files.deep_view(), seq![
            "Google/Chrome/Application"@, "Microsoft/Edge/Application"@,
        ]) + under(env.program_files_x86.deep_view(), seq![
            "Google/Chrome/Application"@, "Microsoft/Edge/Application"@,
        ]),
        Platform::Other => Seq::empty(),
    }
}

fn push_under(roots: &mut Vec<SearchRoot>, base: &Option<String>, dirs: Vec<&'static str>)
    ensures
        roots_view(final(roots)@) == roots_view(old(roots)@) + under(base.deep_view(), dirs.deep_view()),
{
    let ghost start = roots_view(roots@);
    if let Some(b) = base {
        let mut i: usize = 0;
        while i < dirs.len()
            invariant
                i <= dirs@.len(),
                roots_view(roots@) == start + under(base.deep_view(), dirs.deep_view().take(i as int)),
                base.deep_view() == Some(b@),
            decreases dirs@.len() - i,
        {
            let ghost before = roots@;
            assert(dirs.deep_view()[i as int] == dirs@[i as int]@);
            roots.push(SearchRoot::Under { base: b.clone(), dir: String::from_str(dirs[i]) });
            proof {
                assert(roots_view(roots@) =~= roots_view(before).push((Some(b@), dirs.deep_view()[i as int])));
                assert(under(base.deep_view(), dirs.deep_view().take(i + 1)) =~= under(base.deep_view(), dirs.deep_view().take(i as int)).push((Some(b@), dirs.deep_view()[i as int])));
                assert(roots_view(roots@) =~= start + under(base.deep_view(), dirs.deep_view().take(i + 1)));
            }
            i += 1;
        }
        assert(dirs.deep_view().take(i as int) =~= dirs.deep_view());
    } else {
        assert(roots_view(roots@) =~= start + under(base.deep_view(), dirs.deep_view()));
    }
}

fn push_whole(roots: &mut Vec<SearchRoot>, dirs: Vec<&'static str>)
    ensures
        roots_view(final(roots)@) == roots_view(old(roots)@) + whole(dirs.deep_view()),
{
    let ghost start = roots_view(roots@);
    let mut i: usize = 0;
    while i < dirs.len()
        invariant
            i <= dirs@.len(),
            roots_view(roots@) == start + whole(dirs.deep_view().take(i as int)),
        decreases dirs@.len() - i,
    {
        let ghost before = roots@;
        assert(dirs.deep_view()[i as int] == dirs@[i as int]@);
        roots.push(SearchRoot::At(String::from_str(dirs[i])));
        proof {
            assert(roots_view(roots@) =~= roots_view(before).push((None::<Seq<char>>, dirs.deep_view()[i as int])));
            assert(whole(dirs.deep_view().take(i + 1)) =~= whole(dirs.deep_view().take(i as int)).push((None::<Seq<char>>, dirs.deep_view()[i as int])));
            assert(roots_view(roots@) =~= start + whole(dirs.deep_view().take(i + 1)));
        }
        i += 1;
    }
    assert(dirs.deep_view().take(i as int) =~= dirs.deep_view());
}

/// Directories that may contain a CDM on `platform`, most likely first.
/// Forks of Firefox keep Mozilla's layout under their own directory.
pub fn search_roots(platform: Platform, env: &SearchEnv) -> (r: Vec<SearchRoot>)
    ensures
        roots_view(r@) == search_roots_spec(platform, *env),
{
    let mut roots: Vec<SearchRoot> = Vec::new();
    let home = match &env.home {
        Some(h) => Some(h.clone()),
        None => match &env.user_profile {
            Some(h) => Some(h.clone()),
            None => None,
        },
    };
    assert(home.deep_view() == home_dir(*env));
    match platform {
        Platform::Linux => {
            push_under(&mut roots, &home, vec![".mozilla/firefox", ".floorp", ".librewolf", ".waterfox", ".zen"]);
            push_under(&mut roots, &home, vec![
                ".config/google-chrome/WidevineCdm",
                ".config/chromium/WidevineCdm",
                ".config/BraveSoftware/Brave-Browser/WidevineCdm",
                ".config/vivaldi/WidevineCdm",
                ".config/microsoft-edge/WidevineCdm",
                ".config/opera/WidevineCdm",
            ]);
            push_whole(&mut roots, vec![
                "/opt/google/chrome/WidevineCdm",
                "/opt/brave.com/brave/WidevineCdm",
                "/opt/vivaldi/WidevineCdm",
                "/usr/lib/chromium/WidevineCdm",
                "/usr/lib/chromium-browser/WidevineCdm",
            ]);
        },
        Platform::MacOs => {
            push_under(&mut roots, &home, vec![
                "Library/Application Support/Firefox/Profiles",
                "Library/Application Support/LibreWolf/Profiles",
                "Library/Application Support/Waterfox/Profiles",
                "Library/Application Support/zen/Profiles",
            ]);
            push_under(&mut roots, &home, vec![
                "Library/Application Support/Google/Chrome/WidevineCdm",
                "Library/Application Support/BraveSoftware/Brave-Browser/WidevineCdm",
                "Library/Application Support/Chromium/WidevineCdm",
            ]);
            push_whole(&mut roots, vec![
                "/Applications/Google Chrome.app/Contents/Frameworks",
                "/Applications/Brave Browser.app/Contents/Frameworks",
            ]);
        },
        Platform::Windows => {
            push_under(&mut roots, &env.app_data, vec!["Mozilla/Firefox/Profiles", "librewolf/Profiles", "zen/Profiles"]);
            push_under(&mut roots, &env.local_app_data, vec![
                "Google/Chrome/User Data/WidevineCdm",
                "BraveSoftware/Brave-Browser/User Data/WidevineCdm",
                "Chromium/User Data/WidevineCdm",
                "Microsoft/Edge/User Data/WidevineCdm",
            ]);
            push_under(&mut roots, &env.program_files, vec!["Google/Chrome/Application", "Microsoft/Edge/Application"]);
            push_under(&mut roots, &env.program_files_x86, vec!["Google/Chrome/Application", "Microsoft/Edge/Application"]);
        },
        Platform::Other => {},
    }
    roots
}

/// The CDM named by `$KOPUZ_WIDEVINE_CDM`, if it points at one: the path
/// itself when it is a file (`is_file`), else the newest CDM found under it.
///
/// Separate from [`locate`] so it can be honoured before anything is
/// downloaded: a user who names a CDM explicitly means that one, not a fresh
/// copy off the network.
pub fn override_cdm(platform: Platform, override_path: Option<String>, is_file: bool, found: &Vec<String>) -> (r: Option<String>)
    ensures
        r.deep_view() == match override_path {
            None => None,
            Some(path) => if is_file { Some(path@) } else { newest_of(found.deep_view(), platform) },
        },
{
    match override_path {
        None => None,
        Some(path) => if is_file { Some(path) } else { newest_cdm(found, platform) },
    }
}

/// Whether `k` is the first root under which a CDM was found.
pub open spec fn first_fruitful_root(found_per_root: Seq<Seq<Seq<char>>>, k: int) -> bool {
    &&& 0 <= k < found_per_root.len()
    &&& found_per_root[k].len() > 0
    &&& forall|j: int| 0 <= j < k ==> (#[trigger] found_per_root[j]).len() == 0
}

/// Find the newest usable Widevine CDM, or `None` when the user has no
/// browser that ships one: the override when there is one, else the newest CDM
/// under the first search root that holds any (`found_per_root`, in the order
/// of [`search_roots`], with nothing for a root that is not a directory).
pub fn locate(platform: Platform, overridden: Option<String>, found_per_root: &Vec<Vec<String>>) -> (r: Option<String>)
    ensures
        r.deep_view() == match overridden {
            Some(path) => Some(path@),
            None => if exists|k: int| first_fruitful_root(found_per_root.deep_view(), k) {
                newest_of(found_per_root.deep_view()[choose|k: int| first_fruitful_root(found_per_root.deep_view(), k)], platform)
            } else {
                None
            },
        },
{
    if let Some(path) = overridden {
        return Some(path);
    }
    let mut k: usize = 0;
    while k < found_per_root.len()
        invariant
            overridden is None,
            k <= found_per_root@.len(),
            forall|j: int| 0 <= j < k ==> (#[trigger] found_per_root.deep_view()[j]).len() == 0,
        decreases found_per_root@.len() - k,
    {
        assert(found_per_root.deep_view()[k as int] == found_per_root@[k as int].deep_view());
        if found_per_root[k].len() > 0 {
            proof {
                assert(first_fruitful_root(found_per_root.deep_view(), k as int));
                let c = choose|c: int| first_fruitful_root(found_per_root.deep_view(), c);
                assert(c == k);
            }
            return newest_cdm(&found_per_root[k], platform);
        }
        k += 1;
    }
    None
}

} // verus!
