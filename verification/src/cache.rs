//! The authentication cache: one small text file per repository, named after
//! a hash of the repository's working directory, holding the time of the last
//! probe and whether it was rejected.

use crate::text::{
    chars_of, find_char, lemma_decimal_digits, parse_u64_in, push_lower_hex, spec_decimal,
    spec_find, spec_is_first, spec_lower_hex, spec_parse_u64, spec_trim, spec_trim_end,
    spec_trim_start, to_decimal, trim_in,
};
use vstd::prelude::*;
use vstd::string::*;

verus! {

/// Seconds after which a cached result is no longer trusted. An entry of
/// exactly this age is already stale.
pub const STALE_AFTER_SECS: u64 = 300;

/// Directory below the cache home that holds the cache files.
pub const APP_DIR: &'static str = "slick";

/// What every cache file's name starts with.
pub const FILE_PREFIX: &'static str = "auth_";

/// One cached probe result.
#[derive(Clone, Copy, Debug, PartialEq, Eq, Structural)]
pub struct CacheEntry {
    /// Seconds since the epoch at which the probe finished.
    pub timestamp: u64,
    /// Whether the remote rejected the probe's credentials.
    pub failed: bool,
}

/// The character that records the flag.
pub open spec fn spec_flag_char(failed: bool) -> char {
    if failed {
        '1'
    } else {
        '0'
    }
}

/// The text of a cache file: the decimal timestamp, a colon, `1` or `0`.
pub open spec fn spec_entry_text(entry: CacheEntry) -> Seq<char> {
    spec_decimal(entry.timestamp as nat).push(':').push(spec_flag_char(entry.failed))
}

/// What a cache file's content means. The text up to the first colon is the
/// timestamp and must be an unsigned numeral; what follows the colon, with
/// the white space around it taken off, records a failure when it is `1`.
/// Content without a colon or with a malformed timestamp means nothing.
pub open spec fn spec_parse_entry(content: Seq<char>) -> Option<CacheEntry> {
    match spec_find(content, ':') {
        None => None,
        Some(colon) => match spec_parse_u64(content.take(colon)) {
            None => None,
            Some(timestamp) => Some(
                CacheEntry { timestamp, failed: spec_trim(content.skip(colon + 1)) == seq!['1'] },
            ),
        },
    }
}

/// Whether an entry stamped at `timestamp` is still trusted at `now`: its age
/// is under the staleness window. An entry stamped after `now` is not trusted.
pub open spec fn spec_is_fresh(timestamp: u64, now: u64) -> bool {
    timestamp <= now && now - timestamp < STALE_AFTER_SECS
}

/// The flag that a reader at `now` takes from a cache file with the given
/// content, `None` standing for a file that could not be read: a failure is
/// reported only by a well-formed, fresh entry that records one.
pub open spec fn spec_cached_failure(content: Option<Seq<char>>, now: u64) -> bool {
    match content {
        None => false,
        Some(text) => match spec_parse_entry(text) {
            None => false,
            Some(entry) => spec_is_fresh(entry.timestamp, now) && entry.failed,
        },
    }
}

impl CacheEntry {
    /// The text to store for this entry.
    pub fn to_text(&self) -> (text: String)
        ensures
            text@ == spec_entry_text(*self),
    {
        let mut text = to_decimal(self.timestamp);
        text.push(':');
        text.push(
            if self.failed {
                '1'
            } else {
                '0'
            },
        );
        text
    }

    /// Reads an entry from the content of a cache file.
    pub fn parse(content: &str) -> (entry: Option<CacheEntry>)
        ensures
            entry == spec_parse_entry(content@),
    {
        let chars = chars_of(content);
        match find_char(&chars, ':') {
            None => None,
            Some(colon) => {
                match parse_u64_in(&chars, 0, colon) {
                    None => None,
                    Some(timestamp) => {
                        let (a, b) = trim_in(&chars, colon + 1, chars.len());
                        let failed = b - a == 1 && chars[a] == '1';
                        assert(failed == (chars@.subrange(a as int, b as int) == seq!['1'])) by {
                            let t = chars@.subrange(a as int, b as int);
                            if failed {
                                assert(t == seq!['1']);
                            } else if t == seq!['1'] {
                                assert(t.len() == 1);
                                assert(t[0] == '1');
                            }
                        }
                        Some(CacheEntry { timestamp, failed })
                    },
                }
            },
        }
    }

    /// Whether the entry is still trusted at `now`.
    pub fn is_fresh(&self, now: u64) -> (fresh: bool)
        ensures
            fresh == spec_is_fresh(self.timestamp, now),
    {
        match now.checked_sub(self.timestamp) {
            Some(age) => age < STALE_AFTER_SECS,
            None => false,
        }
    }
}

/// An entry's text reads back as the entry.
pub proof fn lemma_entry_round_trip(entry: CacheEntry)
    ensures
        spec_parse_entry(spec_entry_text(entry)) == Some(entry),
{
    let numeral = spec_decimal(entry.timestamp as nat);
    let flag = spec_flag_char(entry.failed);
    let text = spec_entry_text(entry);
    let colon = numeral.len() as int;
    lemma_decimal_digits(entry.timestamp as nat);
    assert forall|j: int| 0 <= j < colon implies text[j] != ':' by {}
    assert(spec_is_first(text, ':', colon));
    assert forall|i: int| spec_is_first(text, ':', i) implies i == colon by {}
    assert(text.take(colon) == numeral);
    let rest = text.skip(colon + 1);
    assert(rest == seq![flag]);
}

/// What a reader takes from a file just written: at `now` it reports the
/// stored flag of an entry written at `entry.timestamp` while the entry is
/// fresh, and no failure once it is stale.
pub proof fn lemma_read_after_write(entry: CacheEntry, now: u64)
    ensures
        spec_cached_failure(Some(spec_entry_text(entry)), now) == (entry.failed && spec_is_fresh(
            entry.timestamp,
            now,
        )),
{
    lemma_entry_round_trip(entry);
}

/// Reading an entry at the very second it was written returns its flag.
pub proof fn lemma_read_at_once(now: u64, failed: bool)
    ensures
        spec_cached_failure(Some(spec_entry_text(CacheEntry { timestamp: now, failed })), now)
            == failed,
{
    lemma_read_after_write(CacheEntry { timestamp: now, failed }, now);
}

/// The staleness boundary: an entry up to 299 seconds old is fresh, and one
/// of 300 seconds or more is stale, so that its flag is not reported.
pub proof fn lemma_staleness_boundary(entry: CacheEntry, now: u64)
    requires
        entry.timestamp <= now,
    ensures
        now - entry.timestamp <= 299 ==> spec_is_fresh(entry.timestamp, now),
        now - entry.timestamp >= 300 ==> !spec_is_fresh(entry.timestamp, now),
        now - entry.timestamp >= 300 ==> !spec_cached_failure(Some(spec_entry_text(entry)), now),
{
    lemma_read_after_write(entry, now);
}

/// Content that is no entry reads as a file that is not there.
pub proof fn lemma_malformed_reads_as_missing(content: Seq<char>, now: u64)
    requires
        spec_parse_entry(content).is_none(),
    ensures
        spec_cached_failure(Some(content), now) == spec_cached_failure(None, now),
        !spec_cached_failure(Some(content), now),
{
}

/// The rolling hash of a path's bytes: each step multiplies by 31 and adds
/// the next byte, modulo 2^64.
pub open spec fn spec_path_hash(bytes: Seq<u8>) -> u64
    decreases bytes.len(),
{
    if bytes.len() == 0 {
        0
    } else {
        ((spec_path_hash(bytes.drop_last()) * 31 + bytes.last()) % 0x1_0000_0000_0000_0000) as u64
    }
}

/// Hashes a path to the number its cache file is named after.
pub fn path_hash(path: &str) -> (hash: u64)
    ensures
        hash == spec_path_hash(path.spec_bytes()),
{
    let bytes = path.as_bytes();
    let mut hash: u64 = 0;
    let mut i: usize = 0;
    while i < bytes.len()
        invariant
            i <= bytes@.len(),
            hash == spec_path_hash(bytes@.take(i as int)),
        decreases bytes@.len() - i,
    {
        assert(bytes@.take(i + 1).drop_last() == bytes@.take(i as int));
        hash = hash.wrapping_mul(31).wrapping_add(bytes[i] as u64);
        i = i + 1;
    }
    assert(bytes@.take(bytes@.len() as int) == bytes@);
    hash
}

/// The name of the cache file of the repository at `path`.
pub open spec fn spec_file_name(path: &str) -> Seq<char> {
    FILE_PREFIX@ + spec_lower_hex(spec_path_hash(path.spec_bytes()) as nat)
}

/// The name of the cache file of the repository whose working directory is
/// `path`: the prefix, then the path's hash in lower-case hexadecimal.
pub fn file_name(path: &str) -> (name: String)
    ensures
        name@ == spec_file_name(path),
{
    let mut name = FILE_PREFIX.to_owned();
    push_lower_hex(&mut name, path_hash(path));
    name
}

/// The file name is a function of the path: the same path always gives the
/// same hash and the same name.
pub proof fn lemma_same_path_same_file(first: &str, second: &str)
    requires
        first@ == second@,
    ensures
        spec_path_hash(first.spec_bytes()) == spec_path_hash(second.spec_bytes()),
        spec_file_name(first) == spec_file_name(second),
{
}

/// One step of the hash keeps two different hashes apart: multiplying by an
/// odd number loses nothing modulo 2^64.
proof fn lemma_hash_step_keeps_apart(first: u64, second: u64, byte: u8)
    requires
        first != second,
    ensures
        (first * 31 + byte) % 0x1_0000_0000_0000_0000 != (second * 31 + byte)
            % 0x1_0000_0000_0000_0000,
{
    let b = byte as u64;
    assert((first * 31 + b) % 0x1_0000_0000_0000_0000 != (second * 31 + b)
        % 0x1_0000_0000_0000_0000) by (bit_vector)
        requires
            first != second,
            b < 256,
    ;
}

/// Two paths of the same length that differ in exactly one byte have
/// different hashes.
pub proof fn lemma_one_byte_apart(first: Seq<u8>, second: Seq<u8>, place: int)
    requires
        first.len() == second.len(),
        0 <= place < first.len(),
        first[place] != second[place],
        forall|i: int| 0 <= i < first.len() && i != place ==> first[i] == second[i],
    ensures
        spec_path_hash(first) != spec_path_hash(second),
    decreases first.len(),
{
    let head_first = first.drop_last();
    let head_second = second.drop_last();
    if place == first.len() - 1 {
        assert(head_first =~= head_second);
    } else {
        lemma_one_byte_apart(head_first, head_second, place);
        lemma_hash_step_keeps_apart(
            spec_path_hash(head_first),
            spec_path_hash(head_second),
            first.last(),
        );
    }
}

/// `part` below the directory `base`: one `/` stands between them unless
/// `base` is empty or already ends in one.
pub open spec fn spec_join_path(base: Seq<char>, part: Seq<char>) -> Seq<char> {
    if base.len() == 0 || base.last() == '/' {
        base + part
    } else {
        base.push('/') + part
    }
}

/// Appends `part` to the path in `base`.
pub fn push_path(base: &mut String, part: &str)
    ensures
        final(base)@ == spec_join_path(old(base)@, part@),
{
    let chars = chars_of(base.as_str());
    if chars.len() > 0 && chars[chars.len() - 1] != '/' {
        base.push('/');
    }
    base.append(part);
}

/// The cache home: `xdg_cache_home` where it is set, else `.cache` below
/// `home`, else nothing.
pub open spec fn spec_cache_home(xdg_cache_home: Option<&str>, home: Option<&str>) -> Option<
    Seq<char>,
> {
    match (xdg_cache_home, home) {
        (Some(dir), _) => Some(dir@),
        (None, Some(dir)) => Some(dir@ + "/.cache"@),
        (None, None) => None,
    }
}

/// Picks the cache home from the two settings that may name it.
pub fn cache_home(xdg_cache_home: Option<&str>, home: Option<&str>) -> (dir: Option<String>)
    ensures
        match dir {
            Some(d) => spec_cache_home(xdg_cache_home, home) == Some(d@),
            None => spec_cache_home(xdg_cache_home, home).is_none(),
        },
{
    match xdg_cache_home {
        Some(dir) => Some(dir.to_owned()),
        None => match home {
            Some(dir) => {
                let mut d = dir.to_owned();
                d.append("/.cache");
                Some(d)
            },
            None => None,
        },
    }
}

} // verus!
