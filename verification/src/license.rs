//! Licenses: their records, their status, and what license files say.

use vstd::prelude::*;
use crate::bindings::{
    current_instant, date_number, lowercase, new_uuid, now_rfc3339, parse_date, parse_rfc3339,
    rfc3339_instant, to_lowercase,
};
use crate::instance::{copy_opt, opt_text, texts};
use crate::paths::joined;
use crate::platform::common::{push_joined, push_text};
use crate::platform::TargetOs;
use crate::number::{
    all_digits, only_digits, parse_unsigned, push_signed_decimal, signed_decimal, unsigned_of,
};
use crate::registry::{
    find_by_id, has_id, index_by_id, lemma_index_by_id, remove_by_id, without_id, Identified,
};
use crate::text::{
    append, append_str, begins_with, concat2, concat3, ends_with, index_of, lines, position, same,
    slice, split_lines, to_chars, to_string, trim, trimmed, views,
};

verus! {

/// What is known of a license's validity.
#[derive(Debug, Clone, Copy, PartialEq, Eq, Structural)]
pub enum LicenseStatus {
    Valid,
    Expired,
    /// Valid for 30 days or less.
    Expiring,
    Invalid,
    Unknown,
}

/// A license.
#[derive(Debug, Clone)]
pub struct AemLicense {
    pub id: String,
    pub name: String,
    pub license_key: Option<String>,
    pub license_file_path: Option<String>,
    pub product_name: String,
    pub product_version: Option<String>,
    pub customer_name: Option<String>,
    pub expiry_date: Option<String>,
    pub status: LicenseStatus,
    pub associated_instance_id: Option<String>,
    pub notes: Option<String>,
    pub created_at: String,
    pub updated_at: String,
}

/// The mathematical content of an `AemLicense`.
pub struct AemLicenseView {
    pub id: Seq<char>,
    pub name: Seq<char>,
    pub license_key: Option<Seq<char>>,
    pub license_file_path: Option<Seq<char>>,
    pub product_name: Seq<char>,
    pub product_version: Option<Seq<char>>,
    pub customer_name: Option<Seq<char>>,
    pub expiry_date: Option<Seq<char>>,
    pub status: LicenseStatus,
    pub associated_instance_id: Option<Seq<char>>,
    pub notes: Option<Seq<char>>,
    pub created_at: Seq<char>,
    pub updated_at: Seq<char>,
}

impl View for AemLicense {
    type V = AemLicenseView;

    open spec fn view(&self) -> AemLicenseView {
        AemLicenseView {
            id: self.id@,
            name: self.name@,
            license_key: opt_text(self.license_key),
            license_file_path: opt_text(self.license_file_path),
            product_name: self.product_name@,
            product_version: opt_text(self.product_version),
            customer_name: opt_text(self.customer_name),
            expiry_date: opt_text(self.expiry_date),
            status: self.status,
            associated_instance_id: opt_text(self.associated_instance_id),
            notes: opt_text(self.notes),
            created_at: self.created_at@,
            updated_at: self.updated_at@,
        }
    }
}

impl Identified for AemLicense {
    open spec fn ident(&self) -> Seq<char> {
        self.id@
    }

    fn id_text(&self) -> (r: &str) {
        self.id.as_str()
    }
}

impl AemLicense {
    /// A copy of the record.
    pub fn duplicate(&self) -> (r: AemLicense)
        ensures
            r@ == self@,
    {
        AemLicense {
            id: self.id.clone(),
            name: self.name.clone(),
            license_key: copy_opt(&self.license_key),
            license_file_path: copy_opt(&self.license_file_path),
            product_name: self.product_name.clone(),
            product_version: copy_opt(&self.product_version),
            customer_name: copy_opt(&self.customer_name),
            expiry_date: copy_opt(&self.expiry_date),
            status: self.status,
            associated_instance_id: copy_opt(&self.associated_instance_id),
            notes: copy_opt(&self.notes),
            created_at: self.created_at.clone(),
            updated_at: self.updated_at.clone(),
        }
    }
}

/// What a validation of a license found.
#[derive(Debug, Clone)]
pub struct LicenseValidationResult {
    pub is_valid: bool,
    pub status: LicenseStatus,
    pub days_until_expiry: Option<i64>,
    pub message: Option<String>,
}

/// An instant: whole seconds since the start of 1970, and the nanoseconds
/// beyond them.
pub struct Instant {
    pub seconds: i64,
    pub nanos: u32,
}

/// The number of the day before 1970 began, counted from day 1 on January 1
/// of the year 1.
pub const DAYS_TO_1970: i64 = 719163;

/// The seconds of a day.
pub const SECONDS_PER_DAY: i64 = 86400;

/// The nanoseconds of a day.
pub const NANOS_PER_DAY: i128 = 86400000000000;

/// The format of an expiry date that is no RFC 3339 time.
pub const DATE_FORMAT: &'static str = "%Y-%m-%d";

/// When a license whose expiry date is `text` expires: at the instant that
/// the text writes as an RFC 3339 time, or at the last second of the day
/// that it writes as year, month and day.
pub open spec fn expiry_of(text: Seq<char>) -> Option<(int, int)> {
    match rfc3339_instant(text) {
        Some(instant) => Some((instant.0 as int, instant.1 as int)),
        None => match date_number(text, DATE_FORMAT@) {
            Some(day) => Some(((day - DAYS_TO_1970) * SECONDS_PER_DAY + 86399, 0int)),
            None => None,
        },
    }
}

/// The whole days from `now` to `expiry`, counted towards zero.
pub open spec fn days_between(expiry: (int, int), now: (int, int)) -> int {
    let nanos = (expiry.0 - now.0) * 1000000000 + (expiry.1 - now.1);
    if nanos >= 0 {
        nanos / (NANOS_PER_DAY as int)
    } else {
        -((-nanos) / (NANOS_PER_DAY as int))
    }
}

/// The status of a license at the instant `now`, and the days until it
/// expires where it has an expiry date that can be read.
///
/// Without an expiry date, a license is valid where its file exists and
/// otherwise of unknown status. An expiry date that cannot be read makes it
/// invalid. Otherwise it has expired where the days until expiry are below
/// zero, is expiring where they are at most 30, and is valid beyond that.
pub open spec fn license_status_of(
    expiry_date: Option<Seq<char>>,
    has_file: bool,
    now: (int, int),
) -> (LicenseStatus, Option<int>) {
    match expiry_date {
        None => if has_file {
            (LicenseStatus::Valid, None)
        } else {
            (LicenseStatus::Unknown, None)
        },
        Some(text) => match expiry_of(text) {
            None => (LicenseStatus::Invalid, None),
            Some(expiry) => {
                let days = days_between(expiry, now);
                if days < 0 {
                    (LicenseStatus::Expired, Some(days))
                } else if days <= 30 {
                    (LicenseStatus::Expiring, Some(days))
                } else {
                    (LicenseStatus::Valid, Some(days))
                }
            },
        },
    }
}

/// The status of a license record at the instant `now`: `file_exists` says
/// whether the file that the record names, if it names one, exists.
pub open spec fn record_status(license: AemLicenseView, file_exists: bool, now: (int, int)) -> (
    LicenseStatus,
    Option<int>,
) {
    license_status_of(license.expiry_date, license.license_file_path is Some && file_exists, now)
}

/// The view of a status with the days until expiry.
pub open spec fn status_view(r: (LicenseStatus, Option<i64>)) -> (LicenseStatus, Option<int>) {
    (
        r.0,
        match r.1 {
            Some(days) => Some(days as int),
            None => None,
        },
    )
}

/// When a license whose expiry date is `text` expires.
pub fn expiry_instant(text: &str) -> (r: Option<(i64, u32)>)
    ensures
        match r {
            Some(instant) => expiry_of(text@) == Some((instant.0 as int, instant.1 as int)),
            None => expiry_of(text@) is None,
        },
{
    match parse_rfc3339(text) {
        Some(instant) => Some(instant),
        None => match parse_date(text, DATE_FORMAT) {
            Some(day) => {
                let day: i64 = day as i64;
                Some(((day - DAYS_TO_1970) * SECONDS_PER_DAY + 86399, 0))
            },
            None => None,
        },
    }
}

/// The whole days from `now` to `expiry`, counted towards zero.
pub fn days_until(expiry: (i64, u32), now: (i64, u32)) -> (r: i64)
    ensures
        r == days_between((expiry.0 as int, expiry.1 as int), (now.0 as int, now.1 as int)),
{
    let seconds: i128 = (expiry.0 as i128) - (now.0 as i128);
    let nanos: i128 = seconds * 1000000000 + ((expiry.1 as i128) - (now.1 as i128));
    if nanos >= 0 {
        let magnitude: u128 = nanos as u128;
        (magnitude / 86400000000000u128) as i64
    } else {
        let magnitude: u128 = (-nanos) as u128;
        let days: u128 = magnitude / 86400000000000u128;
        -(days as i64)
    }
}

/// The status of `license` at the instant `now`, and the days until it
/// expires. `file_exists` says whether the file that the license names, if
/// it names one, exists.
pub fn calculate_license_status_at(license: &AemLicense, file_exists: bool, now: (i64, u32)) -> (r:
    (LicenseStatus, Option<i64>))
    ensures
        status_view(r) == record_status(license@, file_exists, (now.0 as int, now.1 as int)),
{
    match &license.expiry_date {
        None => {
            if license.license_file_path.is_some() && file_exists {
                (LicenseStatus::Valid, None)
            } else {
                (LicenseStatus::Unknown, None)
            }
        },
        Some(text) => match expiry_instant(text.as_str()) {
            None => (LicenseStatus::Invalid, None),
            Some(expiry) => {
                let days = days_until(expiry, now);
                if days < 0 {
                    (LicenseStatus::Expired, Some(days))
                } else if days <= 30 {
                    (LicenseStatus::Expiring, Some(days))
                } else {
                    (LicenseStatus::Valid, Some(days))
                }
            },
        },
    }
}

/// The status of `license` now, and the days until it expires: what
/// `calculate_license_status_at` gives at some instant.
pub fn calculate_license_status(license: &AemLicense, file_exists: bool) -> (r: (
    LicenseStatus,
    Option<i64>,
))
    ensures
        exists|now: (int, int)|
            status_view(r) == #[trigger] record_status(license@, file_exists, now),
{
    let now = current_instant();
    let r = calculate_license_status_at(license, file_exists, now);
    proof {
        assert(status_view(r) == record_status(
            license@,
            file_exists,
            (now.0 as int, now.1 as int),
        ));
    }
    r
}

/// Sets the status of `license` to what it is at the instant `now`.
pub fn update_license_status_at(license: &mut AemLicense, file_exists: bool, now: (i64, u32))
    ensures
        final(license)@ == (AemLicenseView {
            status: record_status(old(license)@, file_exists, (now.0 as int, now.1 as int)).0,
            ..old(license)@
        }),
{
    let (status, _) = calculate_license_status_at(license, file_exists, now);
    license.status = status;
}

/// Sets the status of `license` to what it is now; nothing else changes.
pub fn update_license_status(license: &mut AemLicense, file_exists: bool)
    ensures
        final(license)@ == (AemLicenseView { status: final(license)@.status, ..old(license)@ }),
        exists|now: (int, int)|
            final(license)@.status == (#[trigger] record_status(old(license)@, file_exists, now)).0,
{
    let now = current_instant();
    update_license_status_at(license, file_exists, now);
    proof {
        assert(license@.status == record_status(
            old(license)@,
            file_exists,
            (now.0 as int, now.1 as int),
        ).0);
    }
}

/// The message that goes with a status.
pub open spec fn status_message(status: LicenseStatus, days: Option<int>) -> Seq<char> {
    match status {
        LicenseStatus::Valid => "License is valid"@,
        LicenseStatus::Expired => "License has expired"@,
        LicenseStatus::Expiring => "License will expire in "@ + signed_decimal(
            match days {
                Some(d) => d,
                None => 0,
            },
        ) + " days"@,
        LicenseStatus::Invalid => "License is invalid"@,
        LicenseStatus::Unknown => "License status unknown"@,
    }
}

/// What a validation says of a license with the given status: it counts as
/// valid while it is valid or expiring.
pub fn validation_result(status: LicenseStatus, days_until_expiry: Option<i64>) -> (r:
    LicenseValidationResult)
    ensures
        r.is_valid == (status == LicenseStatus::Valid || status == LicenseStatus::Expiring),
        r.status == status,
        r.days_until_expiry == days_until_expiry,
        r.message matches Some(m) && m@ == status_message(status, status_view((status, days_until_expiry)).1),
{
    let message = match status {
        LicenseStatus::Valid => "License is valid".to_owned(),
        LicenseStatus::Expired => "License has expired".to_owned(),
        LicenseStatus::Expiring => {
            let days: i64 = match days_until_expiry {
                Some(d) => d,
                None => 0,
            };
            let mut out = to_chars("License will expire in ");
            push_signed_decimal(&mut out, days);
            append_str(&mut out, " days");
            to_string(&out)
        },
        LicenseStatus::Invalid => "License is invalid".to_owned(),
        LicenseStatus::Unknown => "License status unknown".to_owned(),
    };
    LicenseValidationResult {
        is_valid: status == LicenseStatus::Valid || status == LicenseStatus::Expiring,
        status,
        days_until_expiry,
        message: Some(message),
    }
}

/// How many licenses are in each status.
#[derive(Debug, Clone, Copy, PartialEq, Eq, Structural)]
pub struct LicenseStatistics {
    pub total: usize,
    pub valid: usize,
    pub expiring: usize,
    pub expired: usize,
    pub unknown: usize,
}

/// How many of `statuses` are `status`.
pub open spec fn count_status(statuses: Seq<LicenseStatus>, status: LicenseStatus) -> nat
    decreases statuses.len(),
{
    if statuses.len() == 0 {
        0
    } else {
        count_status(statuses.drop_last(), status) + if statuses.last() == status {
            1nat
        } else {
            0nat
        }
    }
}

/// The statistics of licenses with the given statuses: a license of invalid
/// status counts among those of unknown status.
pub fn get_license_statistics(statuses: &Vec<LicenseStatus>) -> (r: LicenseStatistics)
    ensures
        r.total == statuses@.len(),
        r.valid == count_status(statuses@, LicenseStatus::Valid),
        r.expiring == count_status(statuses@, LicenseStatus::Expiring),
        r.expired == count_status(statuses@, LicenseStatus::Expired),
        r.unknown == count_status(statuses@, LicenseStatus::Invalid) + count_status(
            statuses@,
            LicenseStatus::Unknown,
        ),
        r.valid + r.expiring + r.expired + r.unknown == r.total,
{
    let mut stats = LicenseStatistics {
        total: statuses.len(),
        valid: 0,
        expiring: 0,
        expired: 0,
        unknown: 0,
    };
    let mut i: usize = 0;
    proof {
        assert(statuses@.take(0) =~= Seq::<LicenseStatus>::empty());
    }
    while i < statuses.len()
        invariant
            i <= statuses.len(),
            stats.total == statuses@.len(),
            stats.valid == count_status(statuses@.take(i as int), LicenseStatus::Valid),
            stats.expiring == count_status(statuses@.take(i as int), LicenseStatus::Expiring),
            stats.expired == count_status(statuses@.take(i as int), LicenseStatus::Expired),
            stats.unknown == count_status(statuses@.take(i as int), LicenseStatus::Invalid)
                + count_status(statuses@.take(i as int), LicenseStatus::Unknown),
            stats.valid + stats.expiring + stats.expired + stats.unknown == i,
        decreases statuses.len() - i,
    {
        proof {
            let next = statuses@.take(i + 1);
            assert(next.drop_last() =~= statuses@.take(i as int));
            assert(next.last() == statuses@[i as int]);
        }
        match statuses[i] {
            LicenseStatus::Valid => {
                stats.valid += 1;
            },
            LicenseStatus::Expiring => {
                stats.expiring += 1;
            },
            LicenseStatus::Expired => {
                stats.expired += 1;
            },
            LicenseStatus::Invalid => {
                stats.unknown += 1;
            },
            LicenseStatus::Unknown => {
                stats.unknown += 1;
            },
        }
        i += 1;
    }
    proof {
        assert(statuses@.take(statuses@.len() as int) =~= statuses@);
    }
    stats
}

/// Whether the name of a file is that of a license file, whatever the case
/// of its letters.
pub open spec fn is_license_name(filename: Seq<char>) -> bool {
    let lower = lowercase(filename);
    lower == "license.properties"@ || ("license"@.is_prefix_of(lower)
        && ".properties"@.is_suffix_of(lower))
}

/// Whether `filename` is the name of a license file.
pub fn is_license_file(filename: &str) -> (r: bool)
    ensures
        r == is_license_name(filename@),
{
    let lower_text = to_lowercase(filename);
    let lower = to_chars(lower_text.as_str());
    let plain = to_chars("license.properties");
    same(&lower, &plain) || (begins_with(&lower, "license") && ends_with(&lower, ".properties"))
}

/// Whether a directory is passed over in the search for license files:
/// hidden directories and those of build tools are.
pub open spec fn is_skipped_dir(name: Seq<char>) -> bool {
    let lower = lowercase(name);
    "."@.is_prefix_of(lower) || lower == "node_modules"@ || lower == "target"@ || lower
        == "build"@
}

/// Whether the directory `name` is passed over.
pub fn skips_directory(name: &str) -> (r: bool)
    ensures
        r == is_skipped_dir(name@),
{
    let lower_text = to_lowercase(name);
    let lower = to_chars(lower_text.as_str());
    let a = to_chars("node_modules");
    let b = to_chars("target");
    let c = to_chars("build");
    begins_with(&lower, ".") || same(&lower, &a) || same(&lower, &b) || same(&lower, &c)
}


/// The views of the records.
pub open spec fn license_views(items: Seq<AemLicense>) -> Seq<AemLicenseView> {
    items.map_values(|l: AemLicense| l@)
}

/// The message that no license has the identifier `id`.
pub open spec fn license_not_found(id: Seq<char>) -> Seq<char> {
    "License "@ + id + " not found"@
}

/// The record that is added for `license` at the time `now`: it takes
/// `fresh_id` where it has no identifier, is stamped with the time, and has
/// the given status.
pub open spec fn added_license(
    license: AemLicenseView,
    fresh_id: Seq<char>,
    now: Seq<char>,
    status: LicenseStatus,
) -> AemLicenseView {
    AemLicenseView {
        id: if license.id.len() == 0 {
            fresh_id
        } else {
            license.id
        },
        created_at: now,
        updated_at: now,
        status,
        ..license
    }
}

/// Adds `license` to the records, with the identifier `fresh_id` where it
/// has none, stamped with the time `now` and with its status at the instant
/// `instant`. Fails, and changes nothing, where a record has its identifier
/// already.
pub fn add_aem_license_at(
    licenses: &mut Vec<AemLicense>,
    license: AemLicense,
    fresh_id: String,
    now: String,
    file_exists: bool,
    instant: (i64, u32),
) -> (r: Result<AemLicense, String>)
    ensures
        match r {
            Ok(record) => !has_id(old(licenses)@, record@.id) && record@ == added_license(
                license@,
                fresh_id@,
                now@,
                record_status(license@, file_exists, (instant.0 as int, instant.1 as int)).0,
            ) && license_views(final(licenses)@) == license_views(old(licenses)@).push(record@),
            Err(message) => has_id(
                old(licenses)@,
                added_license(license@, fresh_id@, now@, license@.status).id,
            ) && message@ == "License with ID "@ + added_license(
                license@,
                fresh_id@,
                now@,
                license@.status,
            ).id + " already exists"@ && final(licenses)@ == old(licenses)@,
        },
{
    let mut record = license;
    if record.id.as_str().is_empty() {
        record.id = fresh_id;
    }
    if find_by_id(licenses, record.id.as_str()).is_some() {
        return Err(concat3("License with ID ", record.id.as_str(), " already exists"));
    }
    record.created_at = now.clone();
    record.updated_at = now;
    update_license_status_at(&mut record, file_exists, instant);
    let copy = record.duplicate();
    licenses.push(record);
    proof {
        assert(license_views(licenses@) =~= license_views(old(licenses)@).push(copy@));
    }
    Ok(copy)
}

/// Adds `license` to the records, with a fresh random identifier where it
/// has none, stamped with the current time. Fails, and changes nothing,
/// where a record has its identifier already.
pub fn add_aem_license(
    licenses: &mut Vec<AemLicense>,
    license: AemLicense,
    file_exists: bool,
) -> (r: Result<AemLicense, String>)
    ensures
        match r {
            Ok(record) => !has_id(old(licenses)@, record@.id) && record@ == (AemLicenseView {
                id: record@.id,
                created_at: record@.created_at,
                updated_at: record@.created_at,
                status: record@.status,
                ..license@
            }) && (license@.id.len() > 0 ==> record@.id == license@.id) && license_views(
                final(licenses)@,
            ) == license_views(old(licenses)@).push(record@),
            Err(message) => final(licenses)@ == old(licenses)@,
        },
        license@.id.len() > 0 ==> (r is Err <==> has_id(old(licenses)@, license@.id)),
        license@.id.len() > 0 && r is Err ==> r->Err_0@ == "License with ID "@ + license@.id
            + " already exists"@,
{
    add_aem_license_at(licenses, license, new_uuid(), now_rfc3339(), file_exists, current_instant())
}

/// Puts `license` in the place of the record `id`, under that identifier
/// and with the record's time of creation, stamped with the time `now` and
/// with its status at the instant `instant`. Fails, and changes nothing,
/// where there is no such record.
pub fn update_aem_license_at(
    licenses: &mut Vec<AemLicense>,
    id: &str,
    license: AemLicense,
    now: String,
    file_exists: bool,
    instant: (i64, u32),
) -> (r: Result<AemLicense, String>)
    ensures
        match r {
            Ok(record) => has_id(old(licenses)@, id@) && record@ == (AemLicenseView {
                id: id@,
                created_at: old(licenses)@[index_by_id(old(licenses)@, id@, 0)].created_at@,
                updated_at: now@,
                status: record_status(
                    license@,
                    file_exists,
                    (instant.0 as int, instant.1 as int),
                ).0,
                ..license@
            }) && license_views(final(licenses)@) == license_views(old(licenses)@).update(
                index_by_id(old(licenses)@, id@, 0),
                record@,
            ),
            Err(message) => !has_id(old(licenses)@, id@) && message@ == license_not_found(id@)
                && final(licenses)@ == old(licenses)@,
        },
{
    let index = match find_by_id(licenses, id) {
        Some(index) => index,
        None => {
            return Err(concat3("License ", id, " not found"));
        },
    };
    let mut record = license;
    record.id = id.to_owned();
    record.created_at = licenses[index].created_at.clone();
    record.updated_at = now;
    update_license_status_at(&mut record, file_exists, instant);
    let copy = record.duplicate();
    licenses[index] = record;
    proof {
        lemma_index_by_id(old(licenses)@, id@, 0);
        assert(license_views(licenses@) =~= license_views(old(licenses)@).update(
            index as int,
            copy@,
        ));
    }
    Ok(copy)
}

/// Puts `license` in the place of the record `id`, stamped with the current
/// time. Fails, and changes nothing, where there is no such record.
pub fn update_aem_license(
    licenses: &mut Vec<AemLicense>,
    id: &str,
    license: AemLicense,
    file_exists: bool,
) -> (r: Result<AemLicense, String>)
    ensures
        match r {
            Ok(record) => has_id(old(licenses)@, id@) && record@ == (AemLicenseView {
                id: id@,
                created_at: old(licenses)@[index_by_id(old(licenses)@, id@, 0)].created_at@,
                updated_at: record@.updated_at,
                status: record@.status,
                ..license@
            }) && license_views(final(licenses)@) == license_views(old(licenses)@).update(
                index_by_id(old(licenses)@, id@, 0),
                record@,
            ),
            Err(message) => !has_id(old(licenses)@, id@) && message@ == license_not_found(id@)
                && final(licenses)@ == old(licenses)@,
        },
{
    update_aem_license_at(licenses, id, license, now_rfc3339(), file_exists, current_instant())
}

/// Removes the record `id`. Fails, and changes nothing, where there is no
/// such record.
pub fn delete_aem_license(licenses: &mut Vec<AemLicense>, id: &str) -> (r: Result<bool, String>)
    ensures
        match r {
            Ok(done) => done && has_id(old(licenses)@, id@) && final(licenses)@ == without_id(
                old(licenses)@,
                id@,
            ),
            Err(message) => !has_id(old(licenses)@, id@) && message@ == license_not_found(id@)
                && final(licenses)@ == old(licenses)@,
        },
{
    if find_by_id(licenses, id).is_none() {
        return Err(concat3("License ", id, " not found"));
    }
    remove_by_id(licenses, id);
    Ok(true)
}

/// Ties the license `license_id` to the instance `instance_id` at the time
/// `now`. Fails, and changes nothing, where there is no such license, or
/// where `instance_exists` says that there is no such instance.
pub fn associate_license_with_instance_at(
    licenses: &mut Vec<AemLicense>,
    license_id: &str,
    instance_id: &str,
    instance_exists: bool,
    now: String,
) -> (r: Result<AemLicense, String>)
    ensures
        match r {
            Ok(record) => has_id(old(licenses)@, license_id@) && instance_exists && record@ == (
            AemLicenseView {
                associated_instance_id: Some(instance_id@),
                updated_at: now@,
                ..old(licenses)@[index_by_id(old(licenses)@, license_id@, 0)]@
            }) && license_views(final(licenses)@) == license_views(old(licenses)@).update(
                index_by_id(old(licenses)@, license_id@, 0),
                record@,
            ),
            Err(message) => final(licenses)@ == old(licenses)@ && (if !has_id(
                old(licenses)@,
                license_id@,
            ) {
                message@ == license_not_found(license_id@)
            } else {
                !instance_exists && message@ == "Instance "@ + instance_id@ + " not found"@
            }),
        },
{
    let index = match find_by_id(licenses, license_id) {
        Some(index) => index,
        None => {
            return Err(concat3("License ", license_id, " not found"));
        },
    };
    if !instance_exists {
        return Err(concat3("Instance ", instance_id, " not found"));
    }
    let mut record = licenses[index].duplicate();
    record.associated_instance_id = Some(instance_id.to_owned());
    record.updated_at = now;
    let copy = record.duplicate();
    licenses[index] = record;
    proof {
        lemma_index_by_id(old(licenses)@, license_id@, 0);
        assert(license_views(licenses@) =~= license_views(old(licenses)@).update(
            index as int,
            copy@,
        ));
    }
    Ok(copy)
}

/// The licenses from index `from` on that are tied to `instance_id`.
pub open spec fn tied_to(all: Seq<AemLicenseView>, instance_id: Seq<char>, from: int) -> Seq<
    AemLicenseView,
>
    decreases all.len() - from,
{
    if from < 0 || from >= all.len() {
        Seq::empty()
    } else if all[from].associated_instance_id == Some(instance_id) {
        seq![all[from]] + tied_to(all, instance_id, from + 1)
    } else {
        tied_to(all, instance_id, from + 1)
    }
}

/// The licenses that are tied to the instance `instance_id`, in their order.
pub fn get_licenses_for_instance(licenses: &Vec<AemLicense>, instance_id: &str) -> (r: Vec<
    AemLicense,
>)
    ensures
        license_views(r@) == tied_to(license_views(licenses@), instance_id@, 0),
{
    let wanted = to_chars(instance_id);
    let mut out: Vec<AemLicense> = Vec::new();
    let mut i: usize = 0;
    proof {
        assert(license_views(licenses@).len() == licenses@.len());
        assert(license_views(out@) + tied_to(license_views(licenses@), instance_id@, 0)
            =~= tied_to(license_views(licenses@), instance_id@, 0));
    }
    while i < licenses.len()
        invariant
            i <= licenses.len(),
            wanted@ == instance_id@,
            license_views(licenses@).len() == licenses@.len(),
            tied_to(license_views(licenses@), instance_id@, 0) == license_views(out@) + tied_to(
                license_views(licenses@),
                instance_id@,
                i as int,
            ),
        decreases licenses.len() - i,
    {
        proof {
            assert(license_views(licenses@)[i as int] == licenses@[i as int]@);
        }
        let tied = match &licenses[i].associated_instance_id {
            Some(held) => {
                let chars = to_chars(held.as_str());
                same(&chars, &wanted)
            },
            None => false,
        };
        if tied {
            let ghost before = license_views(out@);
            let copy = licenses[i].duplicate();
            out.push(copy);
            proof {
                let rest = tied_to(license_views(licenses@), instance_id@, i + 1);
                assert(license_views(out@) =~= before.push(licenses@[i as int]@));
                assert(before + (seq![licenses@[i as int]@] + rest) =~= before.push(
                    licenses@[i as int]@,
                ) + rest);
            }
        }
        i += 1;
    }
    proof {
        assert(license_views(out@) + Seq::<AemLicenseView>::empty() =~= license_views(out@));
    }
    out
}


/// What a license file says.
#[derive(Debug, Clone)]
pub struct ParsedLicenseProperties {
    pub license_key: Option<String>,
    pub product_name: Option<String>,
    pub product_version: Option<String>,
    pub customer_name: Option<String>,
    pub expiry_date: Option<String>,
    pub download_id: Option<String>,
    /// Every property of the file, in the file's order; of two with the same
    /// key the later one counts.
    pub raw_properties: Vec<(String, String)>,
}

/// A license file that was found.
#[derive(Debug, Clone)]
pub struct ScannedLicenseFile {
    pub path: String,
    pub name: String,
    pub product_name: Option<String>,
    pub customer_name: Option<String>,
    pub download_id: Option<String>,
    pub parent_directory: String,
}

/// The key and the value that a line of a properties file gives: none for
/// an empty line, a comment, and a line without `=` or `:`. The first `=`
/// parts key and value, or where there is none the first `:`.
pub open spec fn property_of(line: Seq<char>) -> Option<(Seq<char>, Seq<char>)> {
    let t = trim(line);
    if t.len() == 0 || t[0] == '#' || t[0] == '!' {
        None
    } else {
        let eq = index_of(t, '=');
        let at = if eq >= 0 {
            eq
        } else {
            index_of(t, ':')
        };
        if at < 0 || at >= t.len() {
            None
        } else {
            Some((trim(t.take(at)), trim(t.skip(at + 1))))
        }
    }
}

/// The properties that the lines from index `from` on give.
pub open spec fn properties_from(all: Seq<Seq<char>>, from: int) -> Seq<(Seq<char>, Seq<char>)>
    decreases all.len() - from,
{
    if from < 0 || from >= all.len() {
        Seq::empty()
    } else {
        match property_of(all[from]) {
            Some(pair) => seq![pair] + properties_from(all, from + 1),
            None => properties_from(all, from + 1),
        }
    }
}

/// The properties of a properties file.
pub open spec fn properties_of(content: Seq<char>) -> Seq<(Seq<char>, Seq<char>)> {
    properties_from(lines(content), 0)
}

/// The value of `key`: that of the last property with the key.
pub open spec fn value_of(props: Seq<(Seq<char>, Seq<char>)>, key: Seq<char>) -> Option<Seq<char>>
    decreases props.len(),
{
    if props.len() == 0 {
        None
    } else if props.last().0 == key {
        Some(props.last().1)
    } else {
        value_of(props.drop_last(), key)
    }
}

/// The value of the first of two keys that has one.
pub open spec fn value_of_either(
    props: Seq<(Seq<char>, Seq<char>)>,
    first: Seq<char>,
    second: Seq<char>,
) -> Option<Seq<char>> {
    if value_of(props, first) is Some {
        value_of(props, first)
    } else {
        value_of(props, second)
    }
}

/// The value of the first of three keys that has one.
pub open spec fn value_of_any(
    props: Seq<(Seq<char>, Seq<char>)>,
    first: Seq<char>,
    second: Seq<char>,
    third: Seq<char>,
) -> Option<Seq<char>> {
    if value_of(props, first) is Some {
        value_of(props, first)
    } else {
        value_of_either(props, second, third)
    }
}

/// Whether a key names a part of the license key: `license.` and then
/// digits alone.
pub open spec fn is_part_key(key: Seq<char>) -> bool {
    "license."@.is_prefix_of(key) && all_digits(key.skip(8))
}

/// The number of a part: what its digits write, or 0 where that is no
/// number that fits.
pub open spec fn part_number(key: Seq<char>) -> int {
    match unsigned_of(key.skip(8), i32::MAX as int) {
        Some(n) => n,
        None => 0,
    }
}

/// The parts of the license key among the properties from index `from` on,
/// each with its number.
pub open spec fn parts_from(props: Seq<(Seq<char>, Seq<char>)>, from: int) -> Seq<(int, Seq<char>)>
    decreases props.len() - from,
{
    if from < 0 || from >= props.len() {
        Seq::empty()
    } else if is_part_key(props[from].0) {
        seq![(part_number(props[from].0), props[from].1)] + parts_from(props, from + 1)
    } else {
        parts_from(props, from + 1)
    }
}

/// Where a part with the number `number` goes among parts in order: after
/// the last part whose number is not greater.
pub open spec fn place_of(sorted: Seq<(int, Seq<char>)>, number: int) -> int
    decreases sorted.len(),
{
    if sorted.len() == 0 || sorted.last().0 <= number {
        sorted.len() as int
    } else {
        place_of(sorted.drop_last(), number)
    }
}

/// The parts in the order of their numbers; parts of one number keep their
/// order.
pub open spec fn in_order(parts: Seq<(int, Seq<char>)>) -> Seq<(int, Seq<char>)>
    decreases parts.len(),
{
    if parts.len() == 0 {
        Seq::empty()
    } else {
        let before = in_order(parts.drop_last());
        before.insert(place_of(before, parts.last().0), parts.last())
    }
}

/// The values of the parts, joined by hyphens.
pub open spec fn joined_values(parts: Seq<(int, Seq<char>)>) -> Seq<char>
    decreases parts.len(),
{
    if parts.len() == 0 {
        Seq::empty()
    } else if parts.len() == 1 {
        parts[0].1
    } else {
        joined_values(parts.drop_last()) + "-"@ + parts.last().1
    }
}

/// The license key that the properties give: their parts in the order of
/// their numbers, joined by hyphens; or, where there are no parts, the value
/// of `license.key` or of `license`.
pub open spec fn license_key_of(props: Seq<(Seq<char>, Seq<char>)>) -> Option<Seq<char>> {
    let parts = parts_from(props, 0);
    if parts.len() > 0 {
        Some(joined_values(in_order(parts)))
    } else {
        value_of_either(props, "license.key"@, "license"@)
    }
}

/// The mathematical content of a `ParsedLicenseProperties`.
pub struct ParsedLicenseView {
    pub license_key: Option<Seq<char>>,
    pub product_name: Option<Seq<char>>,
    pub product_version: Option<Seq<char>>,
    pub customer_name: Option<Seq<char>>,
    pub expiry_date: Option<Seq<char>>,
    pub download_id: Option<Seq<char>>,
    pub raw_properties: Seq<(Seq<char>, Seq<char>)>,
}

/// The views of pairs of strings.
pub open spec fn pair_texts(v: Seq<(String, String)>) -> Seq<(Seq<char>, Seq<char>)> {
    v.map_values(|p: (String, String)| (p.0@, p.1@))
}

/// The views of pairs of character vectors.
pub open spec fn pair_views(v: Seq<(Vec<char>, Vec<char>)>) -> Seq<(Seq<char>, Seq<char>)> {
    v.map_values(|p: (Vec<char>, Vec<char>)| (p.0@, p.1@))
}

impl View for ParsedLicenseProperties {
    type V = ParsedLicenseView;

    open spec fn view(&self) -> ParsedLicenseView {
        ParsedLicenseView {
            license_key: opt_text(self.license_key),
            product_name: opt_text(self.product_name),
            product_version: opt_text(self.product_version),
            customer_name: opt_text(self.customer_name),
            expiry_date: opt_text(self.expiry_date),
            download_id: opt_text(self.download_id),
            raw_properties: pair_texts(self.raw_properties@),
        }
    }
}

/// What a license file with the given content says.
pub open spec fn parsed_license_of(content: Seq<char>) -> ParsedLicenseView {
    let props = properties_of(content);
    ParsedLicenseView {
        license_key: license_key_of(props),
        product_name: value_of_either(props, "license.product.name"@, "product.name"@),
        product_version: value_of_any(
            props,
            "license.product.version.major"@,
            "license.product.version"@,
            "product.version"@,
        ),
        customer_name: value_of_either(props, "license.customer.name"@, "customer.name"@),
        expiry_date: value_of_any(props, "license.expiry"@, "expiry.date"@, "expiryDate"@),
        download_id: value_of_either(props, "license.downloadID"@, "downloadID"@),
        raw_properties: props,
    }
}

/// The view of an optional pair of character vectors.
pub open spec fn opt_pair(o: Option<(Vec<char>, Vec<char>)>) -> Option<(Seq<char>, Seq<char>)> {
    match o {
        Some(p) => Some((p.0@, p.1@)),
        None => None,
    }
}

/// The key and the value that a line of a properties file gives.
pub fn line_property(line: &Vec<char>) -> (r: Option<(Vec<char>, Vec<char>)>)
    ensures
        opt_pair(r) == property_of(line@),
{
    let t = trimmed(line);
    if t.len() == 0 || t[0] == '#' || t[0] == '!' {
        return None;
    }
    proof {
        assert(t@.skip(0) =~= t@);
    }
    let at = match position(&t, '=', 0) {
        Some(at) => at,
        None => match position(&t, ':', 0) {
            Some(at) => at,
            None => {
                return None;
            },
        },
    };
    proof {
        assert(t@.take(at as int) =~= t@.subrange(0, at as int));
        assert(t@.skip(at + 1) =~= t@.subrange(at + 1, t@.len() as int));
    }
    let key = trimmed(&slice(&t, 0, at));
    let value = trimmed(&slice(&t, at + 1, t.len()));
    Some((key, value))
}

/// The properties of a properties file with the given content.
pub fn read_properties(content: &str) -> (r: Vec<(Vec<char>, Vec<char>)>)
    ensures
        pair_views(r@) == properties_of(content@),
{
    let chars = to_chars(content);
    let all = split_lines(&chars);
    let mut out: Vec<(Vec<char>, Vec<char>)> = Vec::new();
    let mut i: usize = 0;
    proof {
        assert(views(all@).len() == all@.len());
        assert(pair_views(out@) + properties_of(content@) =~= properties_of(content@));
    }
    while i < all.len()
        invariant
            i <= all.len(),
            views(all@) == lines(content@),
            views(all@).len() == all@.len(),
            properties_of(content@) == pair_views(out@) + properties_from(
                lines(content@),
                i as int,
            ),
        decreases all.len() - i,
    {
        proof {
            assert(views(all@)[i as int] == all@[i as int]@);
        }
        match line_property(&all[i]) {
            Some(pair) => {
                let ghost before = pair_views(out@);
                let ghost p = (pair.0@, pair.1@);
                out.push(pair);
                proof {
                    let rest = properties_from(lines(content@), i + 1);
                    assert(pair_views(out@) =~= before.push(p));
                    assert(before + (seq![p] + rest) =~= before.push(p) + rest);
                }
            },
            None => {},
        }
        i += 1;
    }
    proof {
        assert(pair_views(out@) + Seq::<(Seq<char>, Seq<char>)>::empty() =~= pair_views(out@));
    }
    out
}

/// The value of `key` among the properties.
pub fn lookup(props: &Vec<(Vec<char>, Vec<char>)>, key: &str) -> (r: Option<String>)
    ensures
        opt_text(r) == value_of(pair_views(props@), key@),
{
    let wanted = to_chars(key);
    let mut n: usize = props.len();
    proof {
        assert(pair_views(props@).take(n as int) =~= pair_views(props@));
    }
    while n > 0
        invariant
            n <= props.len(),
            wanted@ == key@,
            pair_views(props@).len() == props@.len(),
            value_of(pair_views(props@), key@) == value_of(
                pair_views(props@).take(n as int),
                key@,
            ),
        decreases n,
    {
        proof {
            let head = pair_views(props@).take(n as int);
            assert(head.last() == (props@[n - 1].0@, props@[n - 1].1@));
            assert(head.drop_last() =~= pair_views(props@).take(n - 1));
        }
        if same(&props[n - 1].0, &wanted) {
            return Some(to_string(&props[n - 1].1));
        }
        n -= 1;
    }
    None
}

/// The value of the first of two keys that has one.
pub fn lookup_either(props: &Vec<(Vec<char>, Vec<char>)>, first: &str, second: &str) -> (r: Option<
    String,
>)
    ensures
        opt_text(r) == value_of_either(pair_views(props@), first@, second@),
{
    match lookup(props, first) {
        Some(value) => Some(value),
        None => lookup(props, second),
    }
}

/// The value of the first of three keys that has one.
pub fn lookup_any(
    props: &Vec<(Vec<char>, Vec<char>)>,
    first: &str,
    second: &str,
    third: &str,
) -> (r: Option<String>)
    ensures
        opt_text(r) == value_of_any(pair_views(props@), first@, second@, third@),
{
    match lookup(props, first) {
        Some(value) => Some(value),
        None => lookup_either(props, second, third),
    }
}

/// The views of numbered parts.
pub open spec fn part_views(v: Seq<(u32, Vec<char>)>) -> Seq<(int, Seq<char>)> {
    v.map_values(|p: (u32, Vec<char>)| (p.0 as int, p.1@))
}

/// The parts of the license key among the properties, in the order of their
/// numbers.
pub fn ordered_parts(props: &Vec<(Vec<char>, Vec<char>)>) -> (r: Vec<(u32, Vec<char>)>)
    ensures
        part_views(r@) == in_order(parts_from(pair_views(props@), 0)),
        r@.len() == parts_from(pair_views(props@), 0).len(),
{
    let mut sorted: Vec<(u32, Vec<char>)> = Vec::new();
    let ghost mut taken: Seq<(int, Seq<char>)> = Seq::empty();
    let mut i: usize = 0;
    proof {
        assert(pair_views(props@).len() == props@.len());
        assert(taken + parts_from(pair_views(props@), 0) =~= parts_from(pair_views(props@), 0));
        assert(part_views(sorted@) =~= in_order(taken));
    }
    while i < props.len()
        invariant
            i <= props.len(),
            pair_views(props@).len() == props@.len(),
            parts_from(pair_views(props@), 0) == taken + parts_from(pair_views(props@), i as int),
            part_views(sorted@) == in_order(taken),
            sorted@.len() == taken.len(),
        decreases props.len() - i,
    {
        proof {
            assert(pair_views(props@)[i as int] == (props@[i as int].0@, props@[i as int].1@));
        }
        let key = &props[i].0;
        let is_part = begins_with(key, "license.") && key.len() >= 8 && only_digits(
            &slice(key, 8, key.len()),
        );
        proof {
            reveal_strlit("license.");
            if "license."@.is_prefix_of(key@) {
                assert(key@.len() >= 8);
                assert(key@.skip(8) =~= key@.subrange(8, key@.len() as int));
            }
        }
        if is_part {
            let digits = slice(key, 8, key.len());
            let number: u32 = match parse_unsigned(&digits, 0x7fff_ffff) {
                Some(n) => n as u32,
                None => 0,
            };
            let value = slice(&props[i].1, 0, props[i].1.len());
            proof {
                assert(value@ =~= props@[i as int].1@);
            }
            let ghost part = (number as int, value@);
            // The place is looked for from the end, so that parts of one
            // number keep their order.
            let mut place: usize = sorted.len();
            proof {
                assert(part_views(sorted@).take(place as int) =~= part_views(sorted@));
            }
            while place > 0 && sorted[place - 1].0 > number
                invariant
                    place <= sorted.len(),
                    part_views(sorted@).len() == sorted@.len(),
                    place_of(part_views(sorted@), number as int) == place_of(
                        part_views(sorted@).take(place as int),
                        number as int,
                    ),
                decreases place,
            {
                proof {
                    let head = part_views(sorted@).take(place as int);
                    assert(head.last() == (sorted@[place - 1].0 as int, sorted@[place - 1].1@));
                    assert(head.drop_last() =~= part_views(sorted@).take(place - 1));
                }
                place -= 1;
            }
            proof {
                let head = part_views(sorted@).take(place as int);
                if place > 0 {
                    assert(head.last() == (sorted@[place - 1].0 as int, sorted@[place - 1].1@));
                }
                assert(place_of(part_views(sorted@), number as int) == place);
            }
            let ghost before = part_views(sorted@);
            let ghost rest = parts_from(pair_views(props@), i + 1);
            sorted.insert(place, (number, value));
            proof {
                assert(part_views(sorted@) =~= before.insert(place as int, part));
                let next = taken.push(part);
                assert(next.drop_last() =~= taken);
                assert(next.last() == part);
                assert(taken + (seq![part] + rest) =~= next + rest);
                taken = next;
            }
        }
        i += 1;
    }
    proof {
        assert(taken + Seq::<(int, Seq<char>)>::empty() =~= taken);
    }
    sorted
}

/// The values of the parts, joined by hyphens.
pub fn join_values(parts: &Vec<(u32, Vec<char>)>) -> (r: String)
    ensures
        r@ == joined_values(part_views(parts@)),
{
    let mut out: Vec<char> = Vec::new();
    let mut i: usize = 0;
    proof {
        assert(part_views(parts@).take(0) =~= Seq::<(int, Seq<char>)>::empty());
    }
    while i < parts.len()
        invariant
            i <= parts.len(),
            part_views(parts@).len() == parts@.len(),
            out@ == joined_values(part_views(parts@).take(i as int)),
        decreases parts.len() - i,
    {
        proof {
            let next = part_views(parts@).take(i + 1);
            assert(next.drop_last() =~= part_views(parts@).take(i as int));
            assert(next.last() == (parts@[i as int].0 as int, parts@[i as int].1@));
            if i == 0 {
                assert(next[0] == next.last());
                assert(out@ + parts@[i as int].1@ =~= parts@[i as int].1@);
            }
        }
        if i > 0 {
            append_str(&mut out, "-");
        }
        append(&mut out, &parts[i].1);
        i += 1;
    }
    proof {
        assert(part_views(parts@).take(parts@.len() as int) =~= part_views(parts@));
    }
    to_string(&out)
}

/// The strings of pairs of character vectors.
pub fn pairs_to_strings(props: &Vec<(Vec<char>, Vec<char>)>) -> (r: Vec<(String, String)>)
    ensures
        pair_texts(r@) == pair_views(props@),
{
    let mut out: Vec<(String, String)> = Vec::new();
    let mut i: usize = 0;
    while i < props.len()
        invariant
            i <= props.len(),
            out@.len() == i,
            forall|j: int|
                0 <= j < i ==> (#[trigger] out@[j]).0@ == props@[j].0@ && out@[j].1@
                    == props@[j].1@,
        decreases props.len() - i,
    {
        out.push((to_string(&props[i].0), to_string(&props[i].1)));
        i += 1;
    }
    proof {
        assert(pair_texts(out@) =~= pair_views(props@));
    }
    out
}

/// What a license file with the given content says.
pub fn parse_license_file(content: &str) -> (r: ParsedLicenseProperties)
    ensures
        r@ == parsed_license_of(content@),
{
    let props = read_properties(content);
    let product_name = lookup_either(&props, "license.product.name", "product.name");
    let product_version = lookup_any(
        &props,
        "license.product.version.major",
        "license.product.version",
        "product.version",
    );
    let customer_name = lookup_either(&props, "license.customer.name", "customer.name");
    let download_id = lookup_either(&props, "license.downloadID", "downloadID");
    let parts = ordered_parts(&props);
    let license_key = if parts.len() > 0 {
        Some(join_values(&parts))
    } else {
        lookup_either(&props, "license.key", "license")
    };
    let expiry_date = lookup_any(&props, "license.expiry", "expiry.date", "expiryDate");
    ParsedLicenseProperties {
        license_key,
        product_name,
        product_version,
        customer_name,
        expiry_date,
        download_id,
        raw_properties: pairs_to_strings(&props),
    }
}

/// The product name, the customer name and the download identifier that a
/// license file with the given content names.
pub fn parse_license_content(content: &str) -> (r: (Option<String>, Option<String>, Option<String>))
    ensures
        opt_text(r.0) == parsed_license_of(content@).product_name,
        opt_text(r.1) == parsed_license_of(content@).customer_name,
        opt_text(r.2) == parsed_license_of(content@).download_id,
{
    let props = read_properties(content);
    (
        lookup_either(&props, "license.product.name", "product.name"),
        lookup_either(&props, "license.customer.name", "customer.name"),
        lookup_either(&props, "license.downloadID", "downloadID"),
    )
}

/// The record of a license that was read from the file `file_path` for the
/// instance `instance_id`, before it is added to the records.
pub fn imported_license(
    parsed: ParsedLicenseProperties,
    file_path: String,
    instance_id: String,
    instance_name: &str,
) -> (r: AemLicense)
    ensures
        r@ == (AemLicenseView {
            id: Seq::empty(),
            name: instance_name@ + " License"@,
            license_key: parsed@.license_key,
            license_file_path: Some(file_path@),
            product_name: match parsed@.product_name {
                Some(name) => name,
                None => "AEM"@,
            },
            product_version: parsed@.product_version,
            customer_name: parsed@.customer_name,
            expiry_date: parsed@.expiry_date,
            status: LicenseStatus::Unknown,
            associated_instance_id: Some(instance_id@),
            notes: match parsed@.download_id {
                Some(id) => Some("Download ID: "@ + id),
                None => None,
            },
            created_at: Seq::empty(),
            updated_at: Seq::empty(),
        }),
{
    AemLicense {
        id: String::new(),
        name: concat2(instance_name, " License"),
        license_key: parsed.license_key,
        license_file_path: Some(file_path),
        product_name: match parsed.product_name {
            Some(name) => name,
            None => "AEM".to_owned(),
        },
        product_version: parsed.product_version,
        customer_name: parsed.customer_name,
        expiry_date: parsed.expiry_date,
        status: LicenseStatus::Unknown,
        associated_instance_id: Some(instance_id),
        notes: match parsed.download_id {
            Some(id) => Some(concat2("Download ID: ", id.as_str())),
            None => None,
        },
        created_at: String::new(),
        updated_at: String::new(),
    }
}


/// The places of a platform where license files are looked for besides
/// those under the home directory.
pub open spec fn system_license_dirs(os: TargetOs) -> Seq<Seq<char>> {
    match os {
        TargetOs::MacOS => seq!["/opt/aem"@, "/opt/Adobe"@, "/Applications/Adobe"@],
        TargetOs::Linux => seq!["/opt/aem"@, "/opt/Adobe"@],
        TargetOs::Windows => seq!["C:\\Adobe"@, "C:\\AEM"@, "C:\\Program Files\\Adobe"@],
    }
}

/// The places where license files are looked for by default, before those
/// that do not exist are left out: those under the home directory, where it
/// is known, and then those of the platform.
pub open spec fn license_dirs_of(os: TargetOs, home: Option<Seq<char>>) -> Seq<Seq<char>> {
    (match home {
        Some(h) => seq![
            joined(h, "aem"@),
            joined(h, "AEM"@),
            joined(h, "Adobe"@),
            joined(h, "cq"@),
            joined(h, "crx"@),
            joined(h, "Development/AEM"@),
            joined(h, "dev/aem"@),
        ],
        None => Seq::empty(),
    }) + system_license_dirs(os)
}

/// The places where license files are looked for by default.
pub fn default_license_locations(os: TargetOs, home: &Option<String>) -> (r: Vec<String>)
    ensures
        texts(r@) == license_dirs_of(os, opt_text(*home)),
{
    let mut r: Vec<String> = Vec::new();
    proof {
        assert(texts(r@) =~= Seq::<Seq<char>>::empty());
    }
    match home {
        Some(h) => {
            let h = h.as_str();
            push_joined(&mut r, h, "aem");
            push_joined(&mut r, h, "AEM");
            push_joined(&mut r, h, "Adobe");
            push_joined(&mut r, h, "cq");
            push_joined(&mut r, h, "crx");
            push_joined(&mut r, h, "Development/AEM");
            push_joined(&mut r, h, "dev/aem");
        },
        None => {},
    }
    match os {
        TargetOs::MacOS => {
            push_text(&mut r, "/opt/aem".to_owned());
            push_text(&mut r, "/opt/Adobe".to_owned());
            push_text(&mut r, "/Applications/Adobe".to_owned());
        },
        TargetOs::Linux => {
            push_text(&mut r, "/opt/aem".to_owned());
            push_text(&mut r, "/opt/Adobe".to_owned());
        },
        TargetOs::Windows => {
            push_text(&mut r, "C:\\Adobe".to_owned());
            push_text(&mut r, "C:\\AEM".to_owned());
            push_text(&mut r, "C:\\Program Files\\Adobe".to_owned());
        },
    }
    proof {
        assert(texts(r@) =~= license_dirs_of(os, opt_text(*home)));
    }
    r
}

/// The record of a license file that was found at `path`.
pub fn scanned_license_file(
    path: String,
    name: String,
    content: &Option<String>,
    parent_directory: String,
) -> (r: ScannedLicenseFile)
    ensures
        r.path@ == path@,
        r.name@ == name@,
        r.parent_directory@ == parent_directory@,
        match opt_text(*content) {
            Some(held) => opt_text(r.product_name) == parsed_license_of(held).product_name
                && opt_text(r.customer_name) == parsed_license_of(held).customer_name && opt_text(
                r.download_id,
            ) == parsed_license_of(held).download_id,
            None => r.product_name is None && r.customer_name is None && r.download_id is None,
        },
{
    let (product_name, customer_name, download_id) = match content {
        Some(held) => parse_license_content(held.as_str()),
        None => (None, None, None),
    };
    ScannedLicenseFile { path, name, product_name, customer_name, download_id, parent_directory }
}

} // verus!
