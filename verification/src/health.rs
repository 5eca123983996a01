//! What the application's console pages say of its health.

use vstd::prelude::*;
use crate::json::{json_document, parse_json};
use crate::instance::{opt_text, AemVersionInfo, AemVersionInfoView, BundleStatus, MemoryStatus};
use crate::json::{elements, member, string_of, JsonValue};
use crate::number::{
    all_digits, digits_value, lemma_digits_value_bound, only_digits, parse_unsigned, pow10,
    power_of_ten,
};
use crate::text::{
    begins_with, contains, digit, find, includes, index_of, is_digit, last_word, lines, opt_chars,
    position, same, search, slice, split, split_lines, split_on, strip_leading, to_chars, to_string,
    trailing_word, trim, trimmed, views, without_leading,
};

verus! {

/// The state that a bundle's entry names, where it names one as a string.
pub open spec fn state_of(bundle: JsonValue) -> Option<Seq<char>> {
    match member(bundle, "state"@) {
        Some(state) => string_of(state),
        None => None,
    }
}

/// Every entry names its state.
pub open spec fn all_have_state(bundles: Seq<JsonValue>) -> bool {
    forall|i: int| 0 <= i < bundles.len() ==> (#[trigger] state_of(bundles[i])) is Some
}

/// How many of `bundles` are in `state`.
pub open spec fn count_in_state(bundles: Seq<JsonValue>, state: Seq<char>) -> nat
    decreases bundles.len(),
{
    if bundles.len() == 0 {
        0
    } else {
        count_in_state(bundles.drop_last(), state) + if state_of(bundles.last()) == Some(state) {
            1nat
        } else {
            0nat
        }
    }
}

/// The bundle counts that a bundle listing gives: the listing is an object
/// whose member `data` is an array of entries that each name their state, and
/// the number of entries fits the count's type.
pub open spec fn bundle_status_of(listing: JsonValue) -> Option<BundleStatus> {
    match member(listing, "data"@) {
        None => None,
        Some(data) => match elements(data) {
            None => None,
            Some(bundles) => if all_have_state(bundles) && bundles.len() <= u32::MAX {
                Some(
                    BundleStatus {
                        total: bundles.len() as u32,
                        active: count_in_state(bundles, "Active"@) as u32,
                        resolved: count_in_state(bundles, "Resolved"@) as u32,
                        installed: count_in_state(bundles, "Installed"@) as u32,
                    },
                )
            } else {
                None
            },
        },
    }
}

/// The three counted states are different words.
proof fn lemma_states_differ()
    ensures
        "Active"@ != "Resolved"@,
        "Active"@ != "Installed"@,
        "Resolved"@ != "Installed"@,
{
    reveal_strlit("Active");
    reveal_strlit("Resolved");
    reveal_strlit("Installed");
    assert("Active"@.len() == 6);
    assert("Resolved"@.len() == 8);
    assert("Installed"@.len() == 9);
}

/// The bundles in the three counted states are no more than all bundles.
pub proof fn lemma_counts_within(bundles: Seq<JsonValue>)
    ensures
        count_in_state(bundles, "Active"@) + count_in_state(bundles, "Resolved"@)
            + count_in_state(bundles, "Installed"@) <= bundles.len(),
    decreases bundles.len(),
{
    lemma_states_differ();
    if bundles.len() > 0 {
        lemma_counts_within(bundles.drop_last());
    }
}

/// In the bundle counts that a listing gives, the active, resolved and
/// installed bundles together are never more than the total.
pub proof fn law_bundle_counts_within_total(listing: JsonValue)
    ensures
        bundle_status_of(listing) matches Some(counts) ==> counts.well_formed(),
{
    if let Some(data) = member(listing, "data"@) {
        if let Some(bundles) = elements(data) {
            lemma_counts_within(bundles);
        }
    }
}

/// The bundle counts of a bundle listing. The counted states never exceed
/// the total.
pub fn bundle_status(listing: &JsonValue) -> (r: Option<BundleStatus>)
    ensures
        r == bundle_status_of(*listing),
        r matches Some(counts) ==> counts.well_formed(),
{
    let data = match listing.get("data") {
        Some(data) => data,
        None => {
            return None;
        },
    };
    let bundles = match data.as_array() {
        Some(bundles) => bundles,
        None => {
            return None;
        },
    };
    let word_active = to_chars("Active");
    let word_resolved = to_chars("Resolved");
    let word_installed = to_chars("Installed");
    let mut active: u32 = 0;
    let mut resolved: u32 = 0;
    let mut installed: u32 = 0;
    let mut i: usize = 0;
    proof {
        lemma_states_differ();
        assert(bundles@.take(0) =~= Seq::<JsonValue>::empty());
    }
    while i < bundles.len()
        invariant
            i <= bundles.len(),
            member(*listing, "data"@) == Some(*data),
            elements(*data) == Some(bundles@),
            word_active@ == "Active"@,
            word_resolved@ == "Resolved"@,
            word_installed@ == "Installed"@,
            "Active"@ != "Resolved"@,
            "Active"@ != "Installed"@,
            "Resolved"@ != "Installed"@,
            all_have_state(bundles@.take(i as int)),
            active == count_in_state(bundles@.take(i as int), "Active"@),
            resolved == count_in_state(bundles@.take(i as int), "Resolved"@),
            installed == count_in_state(bundles@.take(i as int), "Installed"@),
            active + resolved + installed <= i,
            i <= u32::MAX,
        decreases bundles.len() - i,
    {
        let state = match bundles[i].get("state") {
            Some(state) => state,
            None => {
                proof {
                    assert(state_of(bundles@[i as int]) is None);
                }
                return None;
            },
        };
        let name = match state.as_str() {
            Some(name) => to_chars(name),
            None => {
                proof {
                    assert(state_of(bundles@[i as int]) is None);
                }
                return None;
            },
        };
        if i >= 0xffff_ffff {
            return None;
        }
        proof {
            let next = bundles@.take(i + 1);
            assert(next.drop_last() =~= bundles@.take(i as int));
            assert(next.last() == bundles@[i as int]);
            assert(state_of(bundles@[i as int]) == Some(name@));
            assert(all_have_state(next)) by {
                assert forall|j: int| 0 <= j < next.len() implies (#[trigger] state_of(
                    next[j],
                )) is Some by {
                    if j < i {
                        assert(bundles@.take(i as int)[j] == next[j]);
                    }
                }
            }
        }
        if same(&name, &word_active) {
            active += 1;
        } else if same(&name, &word_resolved) {
            resolved += 1;
        } else if same(&name, &word_installed) {
            installed += 1;
        }
        i += 1;
    }
    proof {
        assert(bundles@.take(bundles@.len() as int) =~= bundles@);
    }
    Some(BundleStatus { total: i as u32, active, resolved, installed })
}

/// The bundle counts that the body of an answer from the bundles page gives;
/// `None` where the body is no JSON or no bundle listing.
pub fn parse_bundle_response(body: &[u8]) -> (r: Option<BundleStatus>)
    ensures
        r == match json_document(body@) {
            Some(listing) => bundle_status_of(listing),
            None => None,
        },
        r matches Some(counts) ==> counts.well_formed(),
{
    match parse_json(body) {
        Some(listing) => bundle_status(&listing),
        None => None,
    }
}


/// The least index at or after `from` that holds a digit, or the length.
pub open spec fn digit_start(s: Seq<char>, from: int) -> int
    decreases s.len() - from,
{
    if from < 0 || from >= s.len() {
        s.len() as int
    } else if is_digit(s[from]) {
        from
    } else {
        digit_start(s, from + 1)
    }
}

/// The least index at or after `from` that holds neither a digit nor a
/// point, or the length.
pub open spec fn number_end(s: Seq<char>, from: int) -> int
    decreases s.len() - from,
{
    if from < 0 || from >= s.len() {
        s.len() as int
    } else if is_digit(s[from]) || s[from] == '.' {
        number_end(s, from + 1)
    } else {
        from
    }
}

/// The number written after the first occurrence of `label` in `text`: the
/// run of digits and points that begins at the first digit at or after the
/// label. `None` where the label does not occur; empty where no digit follows.
pub open spec fn number_after(text: Seq<char>, label: Seq<char>) -> Option<Seq<char>> {
    let at = find(text, label);
    if at < 0 {
        None
    } else {
        let from = digit_start(text, at);
        Some(text.subrange(from, number_end(text, from)))
    }
}

/// How many digits after the point count; further ones are ignored.
pub const FRACTION_DIGITS: usize = 18;

/// The number of bytes in a megabyte.
pub const BYTES_PER_MEGABYTE: u64 = 1048576;

/// The part of `number` before its first point.
pub open spec fn whole_part(number: Seq<char>) -> Seq<char> {
    let dot = index_of(number, '.');
    if dot < 0 {
        number
    } else {
        number.take(dot)
    }
}

/// The part of `number` after its first point.
pub open spec fn fraction_part(number: Seq<char>) -> Seq<char> {
    let dot = index_of(number, '.');
    if dot < 0 {
        Seq::empty()
    } else {
        number.skip(dot + 1)
    }
}

/// The digits after the point that count.
pub open spec fn counted_fraction(number: Seq<char>) -> Seq<char> {
    let fraction = fraction_part(number);
    if fraction.len() > FRACTION_DIGITS {
        fraction.take(FRACTION_DIGITS as int)
    } else {
        fraction
    }
}

/// Whether `number` writes a decimal number: digits, at most one point, and
/// at least one digit.
pub open spec fn is_decimal(number: Seq<char>) -> bool {
    &&& all_digits(whole_part(number))
    &&& all_digits(fraction_part(number))
    &&& whole_part(number).len() + fraction_part(number).len() > 0
}

/// The whole number of bytes in as many megabytes as the decimal number
/// `number` writes, at most the greatest value of the result's type.
pub open spec fn megabytes_in_bytes(number: Seq<char>) -> int {
    let fraction = counted_fraction(number);
    let exact = digits_value(whole_part(number)) * BYTES_PER_MEGABYTE + (digits_value(fraction)
        * BYTES_PER_MEGABYTE) / (pow10(fraction.len()) as int);
    if exact > u64::MAX {
        u64::MAX as int
    } else {
        exact
    }
}

/// The value in bytes of the number of megabytes written after `label`.
pub open spec fn memory_value_of(text: Seq<char>, label: Seq<char>) -> Option<int> {
    match number_after(text, label) {
        Some(number) => if is_decimal(number) {
            Some(megabytes_in_bytes(number))
        } else {
            None
        },
        None => None,
    }
}

/// The run of digits and points after the first occurrence of `label`.
pub fn number_text(text: &Vec<char>, label: &Vec<char>) -> (r: Option<Vec<char>>)
    ensures
        match r {
            Some(number) => number_after(text@, label@) == Some(number@),
            None => number_after(text@, label@) is None,
        },
{
    let at = match search(text, label) {
        Some(at) => at,
        None => {
            return None;
        },
    };
    proof {
        crate::text::lemma_find_contains(text@, label@);
    }
    let n = text.len();
    let mut from: usize = at;
    while from < n && !digit(text[from])
        invariant
            at <= from <= n == text.len(),
            digit_start(text@, at as int) == digit_start(text@, from as int),
        decreases n - from,
    {
        from += 1;
    }
    let mut to: usize = from;
    while to < n && (digit(text[to]) || text[to] == '.')
        invariant
            from <= to <= n == text.len(),
            number_end(text@, from as int) == number_end(text@, to as int),
        decreases n - to,
    {
        to += 1;
    }
    Some(slice(text, from, to))
}

/// The value in bytes of the decimal number of megabytes `number`.
pub fn megabytes_to_bytes(number: &Vec<char>) -> (r: Option<u64>)
    ensures
        match r {
            Some(bytes) => is_decimal(number@) && bytes == megabytes_in_bytes(number@),
            None => !is_decimal(number@),
        },
{
    let n = number.len();
    let (whole, rest) = match position(number, '.', 0) {
        Some(dot) => {
            proof {
                assert(number@.skip(0) =~= number@);
                assert(number@.take(dot as int) =~= number@.subrange(0, dot as int));
                assert(number@.skip(dot + 1) =~= number@.subrange(dot + 1, n as int));
            }
            (slice(number, 0, dot), slice(number, dot + 1, n))
        },
        None => {
            proof {
                assert(number@.skip(0) =~= number@);
                assert(number@ =~= number@.subrange(0, n as int));
                assert(Seq::<char>::empty() =~= number@.subrange(0, 0));
            }
            (slice(number, 0, n), slice(number, 0, 0))
        },
    };
    assert(whole@ == whole_part(number@));
    assert(rest@ == fraction_part(number@));
    if !only_digits(&whole) || !only_digits(&rest) || (whole.len() == 0 && rest.len() == 0) {
        return None;
    }
    let counted: usize = if rest.len() > FRACTION_DIGITS {
        FRACTION_DIGITS
    } else {
        rest.len()
    };
    let fraction = slice(&rest, 0, counted);
    proof {
        assert(fraction@ =~= counted_fraction(number@));
        assert(all_digits(fraction@)) by {
            assert forall|i: int| 0 <= i < fraction@.len() implies is_digit(
                #[trigger] fraction@[i],
            ) by {
                assert(fraction@[i] == rest@[i]);
            }
        }
        lemma_digits_value_bound(fraction@);
        lemma_digits_value_bound(whole@);
    }
    let scale = power_of_ten(counted);
    let part: u128 = if counted == 0 {
        0
    } else {
        match parse_unsigned(&fraction, u64::MAX) {
            Some(f) => (f as u128) * (BYTES_PER_MEGABYTE as u128) / scale,
            None => {
                proof {
                    assert(fraction@[0] != '+');
                    assert(pow10(fraction@.len()) <= 1000000000000000000);
                }
                0
            },
        }
    };
    proof {
        if counted == 0 {
            assert(digits_value(fraction@) == 0);
        } else {
            assert(fraction@[0] != '+');
        }
        assert(part == (digits_value(fraction@) * BYTES_PER_MEGABYTE) / (pow10(
            fraction@.len(),
        ) as int));
    }
    // A whole part of 2^44 megabytes or more is more bytes than the result can hold.
    let limit: u64 = 0xfff_ffff_ffff;
    let wide: u128 = if whole.len() == 0 {
        part
    } else {
        match parse_unsigned(&whole, limit) {
            Some(w) => (w as u128) * (BYTES_PER_MEGABYTE as u128) + part,
            None => {
                proof {
                    assert(whole@[0] != '+');
                    assert(digits_value(whole@) > limit);
                    assert(megabytes_in_bytes(number@) == u64::MAX);
                }
                return Some(u64::MAX);
            },
        }
    };
    proof {
        if whole.len() == 0 {
            assert(digits_value(whole@) == 0);
        } else {
            assert(whole@[0] != '+');
        }
    }
    if wide > u64::MAX as u128 {
        Some(u64::MAX)
    } else {
        Some(wide as u64)
    }
}

/// The value in bytes of the number of megabytes written after the first
/// occurrence of `label` in `text`; `None` where the label does not occur or
/// no decimal number follows it.
pub fn extract_memory_value(text: &str, label: &str) -> (r: Option<u64>)
    ensures
        match r {
            Some(bytes) => memory_value_of(text@, label@) == Some(bytes as int),
            None => memory_value_of(text@, label@) is None,
        },
{
    let chars = to_chars(text);
    let wanted = to_chars(label);
    match number_text(&chars, &wanted) {
        Some(number) => megabytes_to_bytes(&number),
        None => None,
    }
}

/// The heap use that the memory page reports, where it reports both the used
/// and the greatest heap size.
pub open spec fn memory_status_of(page: Seq<char>) -> Option<MemoryStatus> {
    match (
        memory_value_of(page, "Heap Memory used"@),
        memory_value_of(page, "Heap Memory maximum"@),
    ) {
        (Some(used), Some(max)) => Some(
            MemoryStatus { heap_used: used as u64, heap_max: max as u64 },
        ),
        _ => None,
    }
}

/// The heap use that the text of the memory page reports; `None` where
/// either value is missing.
pub fn parse_memory_status(page: &str) -> (r: Option<MemoryStatus>)
    ensures
        r == memory_status_of(page@),
{
    let heap_used = match extract_memory_value(page, "Heap Memory used") {
        Some(v) => v,
        None => {
            return None;
        },
    };
    let heap_max = match extract_memory_value(page, "Heap Memory maximum") {
        Some(v) => v,
        None => {
            return None;
        },
    };
    Some(MemoryStatus { heap_used, heap_max })
}


/// What has been read of the product page so far.
pub struct VersionScan {
    pub product_name: Seq<char>,
    pub product_version: Seq<char>,
    pub oak_version: Option<Seq<char>>,
    pub java_version: Option<Seq<char>>,
    /// A line that names the storage engine's version held no word.
    pub failed: bool,
}

/// The state before any line is read.
pub open spec fn scan_start() -> VersionScan {
    VersionScan {
        product_name: "Adobe Experience Manager"@,
        product_version: Seq::empty(),
        oak_version: None,
        java_version: None,
        failed: false,
    }
}

/// The value of a `key=value` line: the second piece between equals signs,
/// without surrounding white space.
pub open spec fn property_value(line: Seq<char>) -> Option<Seq<char>> {
    let pieces = split(line, '=');
    if pieces.len() > 1 {
        Some(trim(pieces[1]))
    } else {
        None
    }
}

/// The state after one more line. Of the four kinds of line the first that
/// fits decides; any other line changes nothing.
pub open spec fn scan_line(acc: VersionScan, line: Seq<char>) -> VersionScan {
    if "Product Name:"@.is_prefix_of(line) {
        VersionScan { product_name: trim(strip_leading(line, "Product Name:"@)), ..acc }
    } else if "Product Version:"@.is_prefix_of(line) {
        VersionScan { product_version: trim(strip_leading(line, "Product Version:"@)), ..acc }
    } else if contains(line, "Oak"@) && contains(line, "Version"@) {
        match last_word(line) {
            Some(word) => VersionScan { oak_version: Some(word), ..acc },
            None => VersionScan { failed: true, ..acc },
        }
    } else if contains(line, "java.version"@) {
        VersionScan { java_version: property_value(line), ..acc }
    } else {
        acc
    }
}

/// The state after the lines from index `from` on.
pub open spec fn scan_lines(acc: VersionScan, all: Seq<Seq<char>>, from: int) -> VersionScan
    decreases all.len() - from,
{
    if from < 0 || from >= all.len() {
        acc
    } else {
        scan_lines(scan_line(acc, all[from]), all, from + 1)
    }
}

/// The versions that the product page reports; `None` where it names no
/// product version.
pub open spec fn version_info_of(page: Seq<char>) -> Option<AemVersionInfoView> {
    let end = scan_lines(scan_start(), lines(page), 0);
    if end.failed || end.product_version.len() == 0 {
        None
    } else {
        Some(
            AemVersionInfoView {
                product_name: end.product_name,
                product_version: end.product_version,
                oak_version: end.oak_version,
                java_version: end.java_version,
            },
        )
    }
}

/// The string of an optional vector of characters.
pub fn opt_to_string(o: &Option<Vec<char>>) -> (r: Option<String>)
    ensures
        opt_text(r) == opt_chars(*o),
{
    match o {
        Some(v) => Some(to_string(v)),
        None => None,
    }
}

/// The value of a `key=value` line.
pub fn value_of_property(line: &Vec<char>) -> (r: Option<Vec<char>>)
    ensures
        opt_chars(r) == property_value(line@),
{
    let pieces = split_on(line, '=');
    proof {
        assert(views(pieces@).len() == pieces@.len());
    }
    if pieces.len() > 1 {
        proof {
            assert(views(pieces@)[1] == pieces@[1]@);
        }
        Some(trimmed(&pieces[1]))
    } else {
        None
    }
}

/// The versions that the text of the product page reports.
pub fn parse_version_info(page: &str) -> (r: Option<AemVersionInfo>)
    ensures
        match r {
            Some(info) => version_info_of(page@) == Some(info@),
            None => version_info_of(page@) is None,
        },
{
    let chars = to_chars(page);
    let all = split_lines(&chars);
    let mut product_name = to_chars("Adobe Experience Manager");
    let mut product_version: Vec<char> = Vec::new();
    let mut oak_version: Option<Vec<char>> = None;
    let mut java_version: Option<Vec<char>> = None;
    let ghost mut acc = scan_start();
    let mut i: usize = 0;
    proof {
        assert(views(all@).len() == all@.len());
        assert(product_version@ =~= Seq::<char>::empty());
    }
    while i < all.len()
        invariant
            i <= all.len(),
            views(all@) == lines(page@),
            views(all@).len() == all@.len(),
            scan_lines(scan_start(), lines(page@), 0) == scan_lines(acc, lines(page@), i as int),
            !acc.failed,
            acc.product_name == product_name@,
            acc.product_version == product_version@,
            acc.oak_version == opt_chars(oak_version),
            acc.java_version == opt_chars(java_version),
        decreases all.len() - i,
    {
        let line = &all[i];
        proof {
            assert(views(all@)[i as int] == line@);
        }
        let ghost before = acc;
        if begins_with(line, "Product Name:") {
            let rest = without_leading(line, "Product Name:");
            product_name = trimmed(&rest);
            proof {
                acc = VersionScan { product_name: product_name@, ..acc };
            }
        } else if begins_with(line, "Product Version:") {
            let rest = without_leading(line, "Product Version:");
            product_version = trimmed(&rest);
            proof {
                acc = VersionScan { product_version: product_version@, ..acc };
            }
        } else if includes(line, "Oak") && includes(line, "Version") {
            match trailing_word(line) {
                Some(word) => {
                    proof {
                        acc = VersionScan { oak_version: Some(word@), ..acc };
                    }
                    oak_version = Some(word);
                },
                None => {
                    proof {
                        let failed = VersionScan { failed: true, ..acc };
                        assert(scan_line(acc, line@) == failed);
                        lemma_failed_stays(failed, lines(page@), i + 1);
                    }
                    return None;
                },
            }
        } else if includes(line, "java.version") {
            java_version = value_of_property(line);
            proof {
                acc = VersionScan { java_version: opt_chars(java_version), ..acc };
            }
        }
        proof {
            assert(acc == scan_line(before, line@));
        }
        i += 1;
    }
    if product_version.len() == 0 {
        return None;
    }
    Some(
        AemVersionInfo {
            product_name: to_string(&product_name),
            product_version: to_string(&product_version),
            oak_version: opt_to_string(&oak_version),
            java_version: opt_to_string(&java_version),
        },
    )
}

/// Once a scan has failed, it stays failed.
proof fn lemma_failed_stays(acc: VersionScan, all: Seq<Seq<char>>, from: int)
    requires
        acc.failed,
    ensures
        scan_lines(acc, all, from).failed,
    decreases all.len() - from,
{
    if 0 <= from < all.len() {
        lemma_failed_stays(scan_line(acc, all[from]), all, from + 1);
    }
}

} // verus!
