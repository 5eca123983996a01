//! Versions of Java, Node and Maven settings: how they are written and read.

use vstd::prelude::*;
use crate::bindings::{lowercase, to_lowercase};
use crate::instance::{opt_text};
use crate::number::{parse_unsigned, unsigned_of};
use crate::paths::{join, joined};
use crate::text::{
    begins_with, concat2, concat3, contains, digit, ends_with, find, first_piece, includes,
    index_of, is_digit, lemma_find_contains, lemma_find_from, lines, occurs_at, position, same,
    search, search_from, slice, split, split_lines, split_on, strip_both, strip_leading, to_chars,
    to_string, trim, trimmed, views, without_both, without_leading,
};

verus! {

/// A tool that installs and switches versions.
#[derive(Debug, Clone)]
pub struct VersionManager {
    pub id: String,
    pub name: String,
    pub manager_type: VersionManagerType,
    pub is_installed: bool,
    pub is_active: bool,
    pub path: Option<String>,
}

/// The version managers that are known.
#[derive(Debug, Clone, Copy, PartialEq, Eq, Structural)]
pub enum VersionManagerType {
    Sdkman,
    Jenv,
    Jabba,
    Nvm,
    Fnm,
    Volta,
    NvmWindows,
    Manual,
}

/// An installation of Java.
#[derive(Debug, Clone)]
pub struct JavaVersion {
    pub version: String,
    pub vendor: String,
    pub path: String,
    pub is_default: bool,
    pub is_current: bool,
    pub full_version: Option<String>,
}

/// An installation of Node.
#[derive(Debug, Clone)]
pub struct NodeVersion {
    pub version: String,
    pub path: String,
    pub is_default: bool,
    pub is_current: bool,
}

/// A version that a manager has installed.
#[derive(Debug, Clone)]
pub struct InstalledVersion {
    pub version: String,
    pub path: String,
    pub is_default: bool,
    pub vendor: Option<String>,
}

/// What a switch of versions did.
#[derive(Debug, Clone)]
pub struct VersionSwitchResult {
    pub success: bool,
    pub previous_version: Option<String>,
    pub current_version: String,
    pub message: Option<String>,
    pub error: Option<String>,
}

/// A stored Maven settings file.
#[derive(Debug, Clone)]
pub struct MavenConfig {
    pub id: String,
    pub name: String,
    pub path: String,
    pub is_active: bool,
    pub description: Option<String>,
    pub local_repository: Option<String>,
}

/// A Maven settings file that was found.
#[derive(Debug, Clone)]
pub struct MavenSettingsFile {
    pub name: String,
    pub path: String,
    pub local_repository: Option<String>,
}

/// The major version that a Java version names: the number after `1.` in
/// the old form, as in `1.8.0_301`, and the first number otherwise.
pub open spec fn java_major_of(version: Seq<char>) -> Seq<char> {
    if "1."@.is_prefix_of(version) {
        let pieces = split(version, '.');
        let second = if pieces.len() > 1 {
            pieces[1]
        } else {
            version
        };
        split(second, '_')[0]
    } else {
        split(version, '.')[0]
    }
}

/// The major version of the Java version `version`.
pub fn extract_java_major_version(version: &str) -> (r: String)
    ensures
        r@ == java_major_of(version@),
{
    let chars = to_chars(version);
    if begins_with(&chars, "1.") {
        let pieces = split_on(&chars, '.');
        proof {
            assert(views(pieces@).len() == pieces@.len());
        }
        if pieces.len() > 1 {
            proof {
                assert(views(pieces@)[1] == pieces@[1]@);
            }
            to_string(&first_piece(&pieces[1], '_'))
        } else {
            to_string(&first_piece(&chars, '_'))
        }
    } else {
        to_string(&first_piece(&chars, '.'))
    }
}

/// A character that a version is written with.
pub open spec fn is_version_char(c: char) -> bool {
    is_digit(c) || c == '.' || c == '_'
}

/// The index just after the run of version characters that begins at `from`.
pub open spec fn version_run_end(s: Seq<char>, from: int) -> int
    decreases s.len() - from,
{
    if from < 0 || from >= s.len() || !is_version_char(s[from]) {
        from
    } else {
        version_run_end(s, from + 1)
    }
}

/// The first run of version characters at or after `from` that begins with
/// a digit.
pub open spec fn version_run_from(s: Seq<char>, from: int) -> Option<Seq<char>>
    decreases s.len() - from,
{
    if from < 0 || from >= s.len() {
        None
    } else if !is_version_char(s[from]) {
        version_run_from(s, from + 1)
    } else {
        let end = version_run_end(s, from);
        if is_digit(s[from]) {
            Some(s.subrange(from, end))
        } else if !(from < end && end <= s.len()) {
            None
        } else {
            version_run_from(s, end)
        }
    }
}

/// The version that a directory name holds: its first run of digits, points
/// and underscores that begins with a digit.
pub open spec fn version_in_name(name: Seq<char>) -> Option<Seq<char>> {
    version_run_from(name, 0)
}

/// The version that the directory name `name` holds.
pub fn extract_version_from_path(name: &str) -> (r: Option<String>)
    ensures
        opt_text(r) == version_in_name(name@),
{
    let s = to_chars(name);
    let n = s.len();
    let mut from: usize = 0;
    while from < n
        invariant
            from <= n == s.len(),
            s@ == name@,
            version_run_from(s@, 0) == version_run_from(s@, from as int),
        decreases n - from,
    {
        let c = s[from];
        if !(digit(c) || c == '.' || c == '_') {
            from += 1;
        } else {
            let mut end: usize = from;
            while end < n && (digit(s[end]) || s[end] == '.' || s[end] == '_')
                invariant
                    from <= end <= n == s.len(),
                    version_run_end(s@, from as int) == version_run_end(s@, end as int),
                    is_version_char(s@[from as int]),
                decreases n - end,
            {
                end += 1;
            }
            assert(version_run_end(s@, from as int) == end);
            assert(from < end);
            if digit(c) {
                return Some(to_string(&slice(&s, from, end)));
            }
            from = end;
        }
    }
    None
}

/// `name` without what may stand before the version in the name of a Node
/// installation: `node-`, `node`, `v` and `-`, each as often as it stands
/// there, in that order.
pub open spec fn node_name_stripped(name: Seq<char>) -> Seq<char> {
    strip_leading(
        strip_leading(strip_leading(strip_leading(name, "node-"@), "node"@), "v"@),
        "-"@,
    )
}

/// The Node version that a directory name holds: what is left of the name
/// after its prefix, behind a `v`, where that begins with a digit.
pub open spec fn node_version_in_name(name: Seq<char>) -> Option<Seq<char>> {
    let rest = node_name_stripped(name);
    if rest.len() > 0 && is_digit(rest[0]) {
        Some("v"@ + rest)
    } else {
        None
    }
}

/// The Node version that the directory name `name` holds.
pub fn node_version_from_name(name: &str) -> (r: Option<String>)
    ensures
        opt_text(r) == node_version_in_name(name@),
{
    let chars = to_chars(name);
    let a = without_leading(&chars, "node-");
    let b = without_leading(&a, "node");
    let c = without_leading(&b, "v");
    let rest = without_leading(&c, "-");
    if rest.len() > 0 && digit(rest[0]) {
        let mut out = to_chars("v");
        crate::text::append(&mut out, &rest);
        Some(to_string(&out))
    } else {
        None
    }
}

/// The Node version that the last part of the path of an installation
/// holds. Which part is the last is for the platform to say; `None` where
/// the path has none.
pub fn extract_node_version_from_path(path: &str) -> (r: Option<String>)
    ensures
        r matches Some(version) ==> exists|name: Seq<char>|
            node_version_in_name(name) == Some(version@),
{
    match crate::bindings::file_name(path) {
        Some(name) => {
            let r = node_version_from_name(name.as_str());
            proof {
                if r is Some {
                    assert(node_version_in_name(name@) == Some(r->0@));
                }
            }
            r
        },
        None => None,
    }
}

/// The numbers of the pieces from index `from` on that are numbers.
pub open spec fn numbers_from(pieces: Seq<Seq<char>>, from: int) -> Seq<int>
    decreases pieces.len() - from,
{
    if from < 0 || from >= pieces.len() {
        Seq::empty()
    } else {
        match unsigned_of(pieces[from], u32::MAX as int) {
            Some(n) => seq![n] + numbers_from(pieces, from + 1),
            None => numbers_from(pieces, from + 1),
        }
    }
}

/// The numbers of a version: those of its pieces between points, after the
/// leading `v`, that are numbers.
pub open spec fn version_numbers(version: Seq<char>) -> Seq<int> {
    numbers_from(split(strip_leading(version, "v"@), '.'), 0)
}

/// How two sequences of numbers compare from index `from` on: -1, 0 or 1.
/// The first pair of unequal numbers decides; where there is none, the
/// shorter sequence is the lesser.
pub open spec fn numbers_order(a: Seq<int>, b: Seq<int>, from: int) -> int
    decreases a.len() - from,
{
    if from < 0 || from >= a.len() || from >= b.len() {
        if a.len() < b.len() {
            -1
        } else if a.len() > b.len() {
            1
        } else {
            0
        }
    } else if a[from] < b[from] {
        -1
    } else if a[from] > b[from] {
        1
    } else {
        numbers_order(a, b, from + 1)
    }
}

/// How two sequences of numbers compare from the index `from` on.
pub open spec fn numbers_order_at(a: Seq<int>, b: Seq<int>, from: usize) -> int {
    numbers_order(a, b, from as int)
}

/// How two versions compare: -1, 0 or 1.
pub open spec fn version_order(a: Seq<char>, b: Seq<char>) -> int {
    numbers_order(version_numbers(a), version_numbers(b), 0)
}

/// The numbers of a vector, as integers.
pub open spec fn ints(v: Seq<u32>) -> Seq<int> {
    v.map_values(|n: u32| n as int)
}

/// The numbers of the version `version`.
pub fn numbers_of(version: &str) -> (r: Vec<u32>)
    ensures
        ints(r@) == version_numbers(version@),
{
    let chars = to_chars(version);
    let bare = without_leading(&chars, "v");
    let pieces = split_on(&bare, '.');
    let mut out: Vec<u32> = Vec::new();
    let mut i: usize = 0;
    proof {
        assert(views(pieces@).len() == pieces@.len());
        assert(ints(out@) + numbers_from(views(pieces@), 0) =~= numbers_from(views(pieces@), 0));
    }
    while i < pieces.len()
        invariant
            i <= pieces.len(),
            views(pieces@).len() == pieces@.len(),
            numbers_from(views(pieces@), 0) == ints(out@) + numbers_from(views(pieces@), i as int),
        decreases pieces.len() - i,
    {
        proof {
            assert(views(pieces@)[i as int] == pieces@[i as int]@);
        }
        match parse_unsigned(&pieces[i], 0xffff_ffff) {
            Some(n) => {
                let ghost before = ints(out@);
                out.push(n as u32);
                proof {
                    let rest = numbers_from(views(pieces@), i + 1);
                    assert(ints(out@) =~= before.push(n as int));
                    assert(before + (seq![n as int] + rest) =~= before.push(n as int) + rest);
                }
            },
            None => {},
        }
        i += 1;
    }
    proof {
        assert(ints(out@) + Seq::<int>::empty() =~= ints(out@));
    }
    out
}


/// What has been read of a `release` file: the Java version and the vendor.
pub open spec fn release_scan(all: Seq<Seq<char>>, from: int, found: (Seq<char>, Seq<char>)) -> (
    Seq<char>,
    Seq<char>,
)
    decreases all.len() - from,
{
    if from < 0 || from >= all.len() {
        found
    } else if "JAVA_VERSION="@.is_prefix_of(all[from]) {
        release_scan(
            all,
            from + 1,
            (strip_both(strip_leading(all[from], "JAVA_VERSION="@), "\""@), found.1),
        )
    } else if "IMPLEMENTOR="@.is_prefix_of(all[from]) {
        release_scan(
            all,
            from + 1,
            (found.0, strip_both(strip_leading(all[from], "IMPLEMENTOR="@), "\""@)),
        )
    } else {
        release_scan(all, from + 1, found)
    }
}

/// An installation's major version, vendor and full version.
pub struct JavaInfo {
    pub major: Seq<char>,
    pub vendor: Seq<char>,
    pub full: Option<Seq<char>>,
}

/// What a `release` file says of the installation: nothing where it names
/// no Java version.
pub open spec fn release_info_of(content: Seq<char>) -> Option<JavaInfo> {
    let found = release_scan(lines(content), 0, (Seq::empty(), "Unknown"@));
    if found.0.len() == 0 {
        None
    } else {
        Some(JavaInfo { major: java_major_of(found.0), vendor: found.1, full: Some(found.0) })
    }
}

/// The view of what is known of an installation.
pub open spec fn info_view(o: Option<(String, String, Option<String>)>) -> Option<JavaInfo> {
    match o {
        Some(info) => Some(JavaInfo { major: info.0@, vendor: info.1@, full: opt_text(info.2) }),
        None => None,
    }
}

/// What the content of a `release` file says of the installation.
pub fn parse_release(content: &str) -> (r: Option<(String, String, Option<String>)>)
    ensures
        info_view(r) == release_info_of(content@),
{
    let chars = to_chars(content);
    let all = split_lines(&chars);
    let mut version: Vec<char> = Vec::new();
    let mut vendor = to_chars("Unknown");
    let mut i: usize = 0;
    proof {
        assert(views(all@).len() == all@.len());
        assert(version@ =~= Seq::<char>::empty());
    }
    while i < all.len()
        invariant
            i <= all.len(),
            views(all@) == lines(content@),
            views(all@).len() == all@.len(),
            release_scan(lines(content@), 0, (Seq::empty(), "Unknown"@)) == release_scan(
                lines(content@),
                i as int,
                (version@, vendor@),
            ),
        decreases all.len() - i,
    {
        proof {
            assert(views(all@)[i as int] == all@[i as int]@);
        }
        let line = &all[i];
        if begins_with(line, "JAVA_VERSION=") {
            let rest = without_leading(line, "JAVA_VERSION=");
            version = without_both(&rest, "\"");
        } else if begins_with(line, "IMPLEMENTOR=") {
            let rest = without_leading(line, "IMPLEMENTOR=");
            vendor = without_both(&rest, "\"");
        }
        i += 1;
    }
    if version.len() == 0 {
        return None;
    }
    let full = to_string(&version);
    let major = extract_java_major_version(full.as_str());
    Some((major, to_string(&vendor), Some(full)))
}

/// The vendor that the name of an installation's directory points to.
pub open spec fn vendor_in_name(name: Seq<char>) -> Seq<char> {
    if contains(name, "temurin"@) || contains(name, "adoptium"@) {
        "Eclipse Adoptium"@
    } else if contains(name, "zulu"@) {
        "Azul Zulu"@
    } else if contains(name, "corretto"@) {
        "Amazon Corretto"@
    } else if contains(name, "graalvm"@) {
        "GraalVM"@
    } else if contains(name, "openjdk"@) {
        "OpenJDK"@
    } else if contains(name, "oracle"@) || "jdk"@.is_prefix_of(name) {
        "Oracle"@
    } else {
        "Unknown"@
    }
}

/// The vendor that the directory name `name` points to.
pub fn vendor_from_name(name: &str) -> (r: String)
    ensures
        r@ == vendor_in_name(name@),
{
    let n = to_chars(name);
    if includes(&n, "temurin") || includes(&n, "adoptium") {
        "Eclipse Adoptium".to_owned()
    } else if includes(&n, "zulu") {
        "Azul Zulu".to_owned()
    } else if includes(&n, "corretto") {
        "Amazon Corretto".to_owned()
    } else if includes(&n, "graalvm") {
        "GraalVM".to_owned()
    } else if includes(&n, "openjdk") {
        "OpenJDK".to_owned()
    } else if includes(&n, "oracle") || begins_with(&n, "jdk") {
        "Oracle".to_owned()
    } else {
        "Unknown".to_owned()
    }
}

/// What is known of an installation: what its `release` file says, where it
/// has one that names a version; or else what the name of its directory
/// says, where that holds a version.
pub open spec fn java_info_of(release: Option<Seq<char>>, dir_name: Option<Seq<char>>) -> Option<
    JavaInfo,
> {
    if release is Some && release_info_of(release->0) is Some {
        release_info_of(release->0)
    } else {
        match dir_name {
            Some(name) => match version_in_name(name) {
                Some(version) => Some(
                    JavaInfo { major: version, vendor: vendor_in_name(name), full: None },
                ),
                None => None,
            },
            None => None,
        }
    }
}

/// The version, vendor and full version of a Java installation, given the
/// content of its `release` file, where it could be read, and the name of
/// its directory, where it has one.
pub fn parse_java_version(release: &Option<String>, dir_name: &Option<String>) -> (r: Option<
    (String, String, Option<String>),
>)
    ensures
        info_view(r) == java_info_of(opt_text(*release), opt_text(*dir_name)),
{
    match release {
        Some(content) => {
            let found = parse_release(content.as_str());
            if found.is_some() {
                return found;
            }
        },
        None => {},
    }
    match dir_name {
        Some(name) => {
            let vendor = vendor_from_name(name.as_str());
            match extract_version_from_path(name.as_str()) {
                Some(version) => Some((version, vendor, None)),
                None => None,
            }
        },
        None => None,
    }
}

/// The text between the first two double quotes of `line`.
pub open spec fn quoted_in(line: Seq<char>) -> Option<Seq<char>> {
    let start = index_of(line, '"');
    if start < 0 || start >= line.len() {
        None
    } else {
        let end = index_of(line.skip(start + 1), '"');
        if end < 0 {
            None
        } else {
            Some(line.subrange(start + 1, start + 1 + end))
        }
    }
}

/// The major version that a line of `java -version` names: a line that holds
/// the word `version` and a quoted text names the major version of that text.
pub open spec fn version_in_java_line(line: Seq<char>) -> Option<Seq<char>> {
    if contains(line, "version"@) {
        match quoted_in(line) {
            Some(full) => Some(java_major_of(full)),
            None => None,
        }
    } else {
        None
    }
}

/// The major version that the first line from index `from` on names.
pub open spec fn first_version_in(all: Seq<Seq<char>>, from: int) -> Option<Seq<char>>
    decreases all.len() - from,
{
    if from < 0 || from >= all.len() {
        None
    } else {
        match version_in_java_line(all[from]) {
            Some(version) => Some(version),
            None => first_version_in(all, from + 1),
        }
    }
}

/// The major version that a line of `java -version` names.
pub fn java_line_version(line: &Vec<char>) -> (r: Option<String>)
    ensures
        opt_text(r) == version_in_java_line(line@),
{
    if !includes(line, "version") {
        return None;
    }
    proof {
        assert(line@.skip(0) =~= line@);
    }
    let start = match position(line, '"', 0) {
        Some(start) => start,
        None => {
            return None;
        },
    };
    let end = match position(line, '"', start + 1) {
        Some(end) => end,
        None => {
            return None;
        },
    };
    let full = to_string(&slice(line, start + 1, end));
    Some(extract_java_major_version(full.as_str()))
}

/// The major version of Java that the output of `java -version` names: that
/// of the first line that names one.
pub fn java_version_in_output(output: &str) -> (r: Option<String>)
    ensures
        opt_text(r) == first_version_in(lines(output@), 0),
{
    let chars = to_chars(output);
    let all = split_lines(&chars);
    let mut i: usize = 0;
    proof {
        assert(views(all@).len() == all@.len());
    }
    while i < all.len()
        invariant
            i <= all.len(),
            views(all@) == lines(output@),
            views(all@).len() == all@.len(),
            first_version_in(lines(output@), 0) == first_version_in(lines(output@), i as int),
        decreases all.len() - i,
    {
        proof {
            assert(views(all@)[i as int] == all@[i as int]@);
        }
        match java_line_version(&all[i]) {
            Some(version) => {
                return Some(version);
            },
            None => {},
        }
        i += 1;
    }
    None
}

/// The vendor that a line of `java -version` names, if it names one.
pub open spec fn vendor_in_java_line(line: Seq<char>) -> Option<Seq<char>> {
    if contains(line, "OpenJDK"@) {
        Some("OpenJDK"@)
    } else if contains(line, "HotSpot"@) || contains(line, "Oracle"@) {
        Some("Oracle"@)
    } else if contains(line, "Temurin"@) || contains(line, "Adoptium"@) {
        Some("Eclipse Adoptium"@)
    } else if contains(line, "Zulu"@) {
        Some("Azul Zulu"@)
    } else if contains(line, "Corretto"@) {
        Some("Amazon Corretto"@)
    } else {
        None
    }
}

/// The version and vendor after the lines from index `from` on: each line
/// that names one replaces what was found before.
pub open spec fn java_output_scan(all: Seq<Seq<char>>, from: int, found: (Seq<char>, Seq<char>)) -> (
    Seq<char>,
    Seq<char>,
)
    decreases all.len() - from,
{
    if from < 0 || from >= all.len() {
        found
    } else {
        let version = match version_in_java_line(all[from]) {
            Some(v) => v,
            None => found.0,
        };
        let vendor = match vendor_in_java_line(all[from]) {
            Some(v) => v,
            None => found.1,
        };
        java_output_scan(all, from + 1, (version, vendor))
    }
}

/// The major version and the vendor that the output of `java -version`
/// names, each `Unknown` where the output names none.
pub fn java_output_info(output: &str) -> (r: (String, String))
    ensures
        (r.0@, r.1@) == java_output_scan(lines(output@), 0, ("Unknown"@, "Unknown"@)),
{
    let chars = to_chars(output);
    let all = split_lines(&chars);
    let mut version = "Unknown".to_owned();
    let mut vendor = "Unknown".to_owned();
    let mut i: usize = 0;
    proof {
        assert(views(all@).len() == all@.len());
    }
    while i < all.len()
        invariant
            i <= all.len(),
            views(all@) == lines(output@),
            views(all@).len() == all@.len(),
            java_output_scan(lines(output@), 0, ("Unknown"@, "Unknown"@)) == java_output_scan(
                lines(output@),
                i as int,
                (version@, vendor@),
            ),
        decreases all.len() - i,
    {
        proof {
            assert(views(all@)[i as int] == all@[i as int]@);
        }
        let line = &all[i];
        match java_line_version(line) {
            Some(v) => {
                version = v;
            },
            None => {},
        }
        if includes(line, "OpenJDK") {
            vendor = "OpenJDK".to_owned();
        } else if includes(line, "HotSpot") || includes(line, "Oracle") {
            vendor = "Oracle".to_owned();
        } else if includes(line, "Temurin") || includes(line, "Adoptium") {
            vendor = "Eclipse Adoptium".to_owned();
        } else if includes(line, "Zulu") {
            vendor = "Azul Zulu".to_owned();
        } else if includes(line, "Corretto") {
            vendor = "Amazon Corretto".to_owned();
        }
        i += 1;
    }
    (version, vendor)
}

/// Whether the name of a file is that of a Maven settings file, whatever
/// the case of its letters.
pub open spec fn is_settings_name(filename: Seq<char>) -> bool {
    let lower = lowercase(filename);
    ||| "settings"@.is_prefix_of(lower) && ".xml"@.is_suffix_of(lower)
    ||| contains(lower, ".m2."@) && ".xml"@.is_suffix_of(lower)
    ||| lower == "settings.xml"@
}

/// Whether `filename` is the name of a Maven settings file.
pub fn is_maven_settings_file(filename: &str) -> (r: bool)
    ensures
        r == is_settings_name(filename@),
{
    let lower_text = to_lowercase(filename);
    let lower = to_chars(lower_text.as_str());
    let plain = to_chars("settings.xml");
    (begins_with(&lower, "settings") && ends_with(&lower, ".xml")) || (includes(&lower, ".m2.")
        && ends_with(&lower, ".xml")) || same(&lower, &plain)
}

/// The message that tells how to install a Java version; installing is left
/// to the version manager.
pub fn install_java_version(version: &str, vendor: &str, manager_id: &str) -> (r: Result<
    bool,
    String,
>)
    ensures
        r matches Err(message) && message@ == "Please use "@ + manager_id@ + " to install Java "@
            + version@ + " ("@ + vendor@ + "). Run: sdk install java "@ + version@,
{
    let mut out = to_chars("Please use ");
    crate::text::append_str(&mut out, manager_id);
    crate::text::append_str(&mut out, " to install Java ");
    crate::text::append_str(&mut out, version);
    crate::text::append_str(&mut out, " (");
    crate::text::append_str(&mut out, vendor);
    crate::text::append_str(&mut out, "). Run: sdk install java ");
    crate::text::append_str(&mut out, version);
    Err(to_string(&out))
}

/// The message that tells how to install a Node version; installing is left
/// to the version manager.
pub fn install_node_version(version: &str, manager_id: &str) -> (r: Result<bool, String>)
    ensures
        r matches Err(message) && message@ == "Please use "@ + manager_id@ + " to install Node "@
            + version@ + ". Run the appropriate install command."@,
{
    let mut out = to_chars("Please use ");
    crate::text::append_str(&mut out, manager_id);
    crate::text::append_str(&mut out, " to install Node ");
    crate::text::append_str(&mut out, version);
    crate::text::append_str(&mut out, ". Run the appropriate install command.");
    Err(to_string(&out))
}

/// The versions that a manager lists, as installed versions of which
/// nothing else is known.
pub fn installed_versions(versions: &Vec<String>) -> (r: Vec<InstalledVersion>)
    ensures
        r@.len() == versions@.len(),
        forall|i: int|
            0 <= i < r@.len() ==> (#[trigger] r@[i]).version@ == versions@[i]@ && r@[i].path@.len()
                == 0 && !r@[i].is_default && r@[i].vendor is None,
{
    let mut r: Vec<InstalledVersion> = Vec::new();
    let mut i: usize = 0;
    while i < versions.len()
        invariant
            i <= versions.len(),
            r@.len() == i,
            forall|j: int|
                0 <= j < i ==> (#[trigger] r@[j]).version@ == versions@[j]@ && r@[j].path@.len()
                    == 0 && !r@[j].is_default && r@[j].vendor is None,
        decreases versions.len() - i,
    {
        r.push(
            InstalledVersion {
                version: versions[i].clone(),
                path: String::new(),
                is_default: false,
                vendor: None,
            },
        );
        i += 1;
    }
    r
}

/// What a switch through a version manager did: `tool` is `Java` or `Node`.
pub fn switched_with_manager(
    tool: &str,
    previous: Option<String>,
    version: &str,
    manager: &str,
) -> (r: VersionSwitchResult)
    ensures
        r.success,
        opt_text(r.previous_version) == opt_text(previous),
        r.current_version@ == version@,
        r.message matches Some(m) && m@ == "Switched to "@ + tool@ + " "@ + version@ + " via "@
            + manager@,
        r.error is None,
{
    let mut out = to_chars("Switched to ");
    crate::text::append_str(&mut out, tool);
    crate::text::append_str(&mut out, " ");
    crate::text::append_str(&mut out, version);
    crate::text::append_str(&mut out, " via ");
    crate::text::append_str(&mut out, manager);
    VersionSwitchResult {
        success: true,
        previous_version: previous,
        current_version: version.to_owned(),
        message: Some(to_string(&out)),
        error: None,
    }
}

/// What a switch of Java by its home directory did.
pub fn switched_java_home(previous: Option<String>, version: String, path: &str) -> (r:
    VersionSwitchResult)
    ensures
        r.success,
        opt_text(r.previous_version) == opt_text(previous),
        r.current_version@ == version@,
        r.message matches Some(m) && m@ == "JAVA_HOME set to "@ + path@,
        r.error is None,
{
    VersionSwitchResult {
        success: true,
        previous_version: previous,
        current_version: version,
        message: Some(concat2("JAVA_HOME set to ", path)),
        error: None,
    }
}

/// Whether an installation answers to `version`: its version is that, or
/// its path holds it.
pub open spec fn answers_to(installed: JavaVersion, version: Seq<char>) -> bool {
    installed.version@ == version || contains(installed.path@, version)
}

/// The index of the first installation at or after `from` that answers to
/// `version`, or the number of installations.
pub open spec fn java_index(all: Seq<JavaVersion>, version: Seq<char>, from: int) -> int
    decreases all.len() - from,
{
    if from < 0 || from >= all.len() {
        all.len() as int
    } else if answers_to(all[from], version) {
        from
    } else {
        java_index(all, version, from + 1)
    }
}

/// The first of the installations that answers to `version`, or the message
/// that there is none.
pub fn find_java(all: &Vec<JavaVersion>, version: &str) -> (r: Result<usize, String>)
    ensures
        match r {
            Ok(i) => i < all@.len() && java_index(all@, version@, 0) == i,
            Err(message) => java_index(all@, version@, 0) == all@.len() && message@
                == "Java version "@ + version@ + " not found"@,
        },
{
    let wanted = to_chars(version);
    let mut i: usize = 0;
    while i < all.len()
        invariant
            i <= all.len(),
            wanted@ == version@,
            java_index(all@, version@, 0) == java_index(all@, version@, i as int),
        decreases all.len() - i,
    {
        let held = to_chars(all[i].version.as_str());
        let path = to_chars(all[i].path.as_str());
        if same(&held, &wanted) || includes(&path, version) {
            return Ok(i);
        }
        i += 1;
    }
    Err(concat3("Java version ", version, " not found"))
}


/// `s` without its XML comments. Where a comment is not closed, what stands
/// before it is followed by all of `s`.
pub open spec fn without_comments(s: Seq<char>) -> Seq<char>
    decreases s.len(),
{
    let start = find(s, "<!--"@);
    if start < 0 || start > s.len() {
        s
    } else {
        let end = find(s.skip(start), "-->"@);
        if end < 0 {
            s.take(start) + s
        } else if start + end + 3 > s.len() {
            s
        } else {
            s.take(start) + without_comments(s.skip(start + end + 3))
        }
    }
}

/// `content` without its XML comments.
pub fn strip_comments(content: &Vec<char>) -> (r: Vec<char>)
    ensures
        r@ == without_comments(content@),
{
    let open = to_chars("<!--");
    let close = to_chars("-->");
    let mut out: Vec<char> = Vec::new();
    let mut at: usize = 0;
    proof {
        reveal_strlit("<!--");
        reveal_strlit("-->");
        assert(content@.skip(0) =~= content@);
        assert(out@ + without_comments(content@) =~= without_comments(content@));
    }
    loop
        invariant
            at <= content.len(),
            open@ == "<!--"@,
            close@ == "-->"@,
            "<!--"@.len() == 4,
            "-->"@.len() == 3,
            without_comments(content@) == out@ + without_comments(content@.skip(at as int)),
        decreases content.len() - at,
    {
        let ghost rest = content@.skip(at as int);
        let ghost before = out@;
        let start = match search_from(content, &open, at) {
            Some(start) => start,
            None => {
                proof {
                    lemma_find_shift(content@, "<!--"@, at as int);
                }
                crate::text::append(&mut out, &slice(content, at, content.len()));
                proof {
                    assert(rest =~= content@.subrange(at as int, content@.len() as int));
                }
                return out;
            },
        };
        proof {
            lemma_find_shift(content@, "<!--"@, at as int);
            lemma_find_from(content@, "<!--"@, at as int);
            assert(find(rest, "<!--"@) == start - at);
            assert(rest.take(start - at) =~= content@.subrange(at as int, start as int));
            assert(rest.skip(start - at) =~= content@.skip(start as int));
        }
        crate::text::append(&mut out, &slice(content, at, start));
        match search_from(content, &close, start) {
            Some(end) => {
                proof {
                    lemma_find_shift(content@, "-->"@, start as int);
                    lemma_find_from(content@, "-->"@, start as int);
                    assert(find(content@.skip(start as int), "-->"@) == end - start);
                    assert(rest.skip((start - at) + (end - start) + 3) =~= content@.skip(end + 3));
                    assert(before + (rest.take(start - at) + without_comments(
                        content@.skip(end + 3),
                    )) =~= (before + rest.take(start - at)) + without_comments(
                        content@.skip(end + 3),
                    ));
                }
                at = end + 3;
            },
            None => {
                proof {
                    lemma_find_shift(content@, "-->"@, start as int);
                    assert(find(content@.skip(start as int), "-->"@) == -1);
                    assert(rest =~= content@.subrange(at as int, content@.len() as int));
                    assert(before + (rest.take(start - at) + rest) =~= (before + rest.take(
                        start - at,
                    )) + rest);
                }
                crate::text::append(&mut out, &slice(content, at, content.len()));
                return out;
            },
        }
    }
}

/// Searching in what follows index `at` is searching from `at` on.
pub proof fn lemma_find_shift(s: Seq<char>, pat: Seq<char>, at: int)
    requires
        0 <= at <= s.len(),
    ensures
        find(s.skip(at), pat) == (if crate::text::find_from(s, pat, at) < 0 {
            -1
        } else {
            crate::text::find_from(s, pat, at) - at
        }),
{
    lemma_find_shift_from(s, pat, at, 0);
}

/// Searching in what follows index `at`, from `k` on, is searching from
/// `at + k` on.
pub proof fn lemma_find_shift_from(s: Seq<char>, pat: Seq<char>, at: int, k: int)
    requires
        0 <= at <= s.len(),
        0 <= k,
    ensures
        crate::text::find_from(s.skip(at), pat, k) == (if crate::text::find_from(s, pat, at + k)
            < 0 {
            -1
        } else {
            crate::text::find_from(s, pat, at + k) - at
        }),
    decreases s.len() - at - k,
{
    let t = s.skip(at);
    if k + pat.len() > t.len() {
    } else {
        assert(t.subrange(k, k + pat.len()) =~= s.subrange(at + k, at + k + pat.len()));
        if occurs_at(t, pat, k) {
            assert(occurs_at(s, pat, at + k));
        } else if k >= t.len() {
        } else {
            assert(!occurs_at(s, pat, at + k));
            lemma_find_shift_from(s, pat, at, k + 1);
        }
    }
}

/// Whether a repository path is one that stands as an example in a settings
/// file and names no place.
pub open spec fn is_placeholder(path: Seq<char>) -> bool {
    let lower = lowercase(path);
    ||| contains(lower, "/path/to/"@)
    ||| contains(lower, "\\path\\to\\"@)
    ||| contains(lower, "/your/"@)
    ||| contains(lower, "${"@)
    ||| "path/"@.is_prefix_of(lower)
    ||| lower == "path"@
}

/// The repository where the settings name none: `.m2/repository` under the
/// home directory, where that is known.
pub open spec fn default_repository(home: Option<Seq<char>>) -> Option<Seq<char>> {
    match home {
        Some(h) => Some(joined(joined(h, ".m2"@), "repository"@)),
        None => None,
    }
}

/// The text of the first `localRepository` element of `clean`, without the
/// white space around it, where there is such an element.
pub open spec fn repository_element(clean: Seq<char>) -> Option<Seq<char>> {
    let start = find(clean, "<localRepository>"@);
    if start < 0 || start + 17 > clean.len() {
        None
    } else {
        let end = find(clean.skip(start + 17), "</localRepository>"@);
        if end < 0 || start + 17 + end > clean.len() {
            None
        } else {
            Some(trim(clean.subrange(start + 17, start + 17 + end)))
        }
    }
}

/// The local repository that a Maven settings file names. An element that
/// is empty or holds a placeholder counts for nothing, and the default
/// stands in; a path that begins with `~/` or `~\` is taken under the home
/// directory, where that is known.
pub open spec fn local_repository_of(content: Seq<char>, home: Option<Seq<char>>) -> Option<
    Seq<char>,
> {
    match repository_element(without_comments(content)) {
        Some(path) => if path.len() == 0 || is_placeholder(path) {
            default_repository(home)
        } else if home is Some && ("~/"@.is_prefix_of(path) || "~\\"@.is_prefix_of(path)) {
            Some(joined(home->0, path.skip(2)))
        } else {
            Some(path)
        },
        None => default_repository(home),
    }
}

/// The default local repository.
pub fn default_local_repository(home: &Option<String>) -> (r: Option<String>)
    ensures
        opt_text(r) == default_repository(opt_text(*home)),
{
    match home {
        Some(h) => {
            let m2 = join(h.as_str(), ".m2");
            Some(join(m2.as_str(), "repository"))
        },
        None => None,
    }
}

/// The local repository that the content of a Maven settings file names.
pub fn parse_maven_local_repository(content: &str, home: &Option<String>) -> (r: Option<String>)
    ensures
        opt_text(r) == local_repository_of(content@, opt_text(*home)),
{
    let chars = to_chars(content);
    let clean = strip_comments(&chars);
    let open = to_chars("<localRepository>");
    let close = to_chars("</localRepository>");
    proof {
        reveal_strlit("<localRepository>");
        reveal_strlit("~/");
        reveal_strlit("~\\");
        lemma_find_contains(clean@, "<localRepository>"@);
    }
    let start = match search(&clean, &open) {
        Some(start) => start,
        None => {
            return default_local_repository(home);
        },
    };
    assert(start + 17 <= clean.len());
    let from: usize = start + 17;
    let end = match search_from(&clean, &close, from) {
        Some(end) => end,
        None => {
            proof {
                lemma_find_shift(clean@, "</localRepository>"@, from as int);
            }
            return default_local_repository(home);
        },
    };
    proof {
        lemma_find_shift(clean@, "</localRepository>"@, from as int);
        lemma_find_from(clean@, "</localRepository>"@, from as int);
    }
    let path = trimmed(&slice(&clean, from, end));
    if path.len() == 0 {
        return default_local_repository(home);
    }
    let path_text = to_string(&path);
    let lower_text = to_lowercase(path_text.as_str());
    let lower = to_chars(lower_text.as_str());
    let plain = to_chars("path");
    if includes(&lower, "/path/to/") || includes(&lower, "\\path\\to\\") || includes(
        &lower,
        "/your/",
    ) || includes(&lower, "${") || begins_with(&lower, "path/") || same(&lower, &plain) {
        return default_local_repository(home);
    }
    if begins_with(&path, "~/") || begins_with(&path, "~\\") {
        match home {
            Some(h) => {
                let rest = to_string(&slice(&path, 2, path.len()));
                proof {
                    assert(path@.skip(2) =~= path@.subrange(2, path@.len() as int));
                }
                return Some(join(h.as_str(), rest.as_str()));
            },
            None => {},
        }
    }
    Some(path_text)
}


/// A version manager that this library knows, with what is written of it.
pub struct KnownManager {
    pub id: Seq<char>,
    pub name: Seq<char>,
    pub manager_type: VersionManagerType,
    /// The name of its directory under the home directory, where it has one.
    pub dir: Option<Seq<char>>,
}

/// The version managers of macOS.
pub open spec fn macos_managers() -> Seq<KnownManager> {
    seq![
        KnownManager {
            id: "sdkman"@,
            name: "SDKMAN"@,
            manager_type: VersionManagerType::Sdkman,
            dir: Some(".sdkman"@),
        },
        KnownManager {
            id: "jenv"@,
            name: "jEnv"@,
            manager_type: VersionManagerType::Jenv,
            dir: Some(".jenv"@),
        },
        KnownManager {
            id: "nvm"@,
            name: "NVM"@,
            manager_type: VersionManagerType::Nvm,
            dir: Some(".nvm"@),
        },
    ]
}

/// The record of a version manager: it counts as active where it is
/// installed, and its path is its directory under the home directory, where
/// it has a directory and the home directory is known.
pub fn version_manager(
    id: &str,
    name: &str,
    manager_type: VersionManagerType,
    is_installed: bool,
    path: Option<String>,
) -> (r: VersionManager)
    ensures
        r.id@ == id@,
        r.name@ == name@,
        r.manager_type == manager_type,
        r.is_installed == is_installed,
        r.is_active == is_installed,
        opt_text(r.path) == opt_text(path),
{
    VersionManager {
        id: id.to_owned(),
        name: name.to_owned(),
        manager_type,
        is_installed,
        is_active: is_installed,
        path,
    }
}

/// The path of a manager's directory `dir` under the home directory.
pub fn manager_path(home: &Option<String>, dir: &str) -> (r: Option<String>)
    ensures
        opt_text(r) == (match opt_text(*home) {
            Some(h) => Some(joined(h, dir@)),
            None => None,
        }),
{
    match home {
        Some(h) => Some(join(h.as_str(), dir)),
        None => None,
    }
}

/// The version managers of macOS, given which of them are installed:
/// SDKMAN, jEnv and NVM, in that order.
pub fn macos_version_managers(
    home: &Option<String>,
    sdkman_installed: bool,
    jenv_installed: bool,
    nvm_installed: bool,
) -> (r: Vec<VersionManager>)
    ensures
        r@.len() == 3,
        r@[0].id@ == "sdkman"@ && r@[0].name@ == "SDKMAN"@ && r@[0].manager_type
            == VersionManagerType::Sdkman && r@[0].is_installed == sdkman_installed
            && r@[0].is_active == sdkman_installed,
        r@[1].id@ == "jenv"@ && r@[1].name@ == "jEnv"@ && r@[1].manager_type
            == VersionManagerType::Jenv && r@[1].is_installed == jenv_installed && r@[1].is_active
            == jenv_installed,
        r@[2].id@ == "nvm"@ && r@[2].name@ == "NVM"@ && r@[2].manager_type
            == VersionManagerType::Nvm && r@[2].is_installed == nvm_installed && r@[2].is_active
            == nvm_installed,
        forall|i: int|
            0 <= i < 3 ==> opt_text((#[trigger] r@[i]).path) == (match opt_text(*home) {
                Some(h) => Some(joined(h, macos_managers()[i].dir->0)),
                None => None,
            }),
{
    let mut r: Vec<VersionManager> = Vec::new();
    r.push(
        version_manager(
            "sdkman",
            "SDKMAN",
            VersionManagerType::Sdkman,
            sdkman_installed,
            manager_path(home, ".sdkman"),
        ),
    );
    r.push(
        version_manager(
            "jenv",
            "jEnv",
            VersionManagerType::Jenv,
            jenv_installed,
            manager_path(home, ".jenv"),
        ),
    );
    r.push(
        version_manager(
            "nvm",
            "NVM",
            VersionManagerType::Nvm,
            nvm_installed,
            manager_path(home, ".nvm"),
        ),
    );
    r
}

/// The version managers of Windows, given which of them are installed and
/// what the environment names in `NVM_HOME`: Jabba, fnm, Volta and
/// nvm-windows, in that order.
pub fn windows_version_managers(
    home: &Option<String>,
    nvm_home: Option<String>,
    jabba_installed: bool,
    fnm_installed: bool,
    volta_installed: bool,
    nvm_installed: bool,
) -> (r: Vec<VersionManager>)
    ensures
        r@.len() == 4,
        r@[0].id@ == "jabba"@ && r@[0].name@ == "Jabba"@ && r@[0].manager_type
            == VersionManagerType::Jabba && r@[0].is_installed == jabba_installed
            && r@[0].is_active == jabba_installed && opt_text(r@[0].path) == (match opt_text(
            *home,
        ) {
            Some(h) => Some(joined(h, ".jabba"@)),
            None => None,
        }),
        r@[1].id@ == "fnm"@ && r@[1].name@ == "fnm"@ && r@[1].manager_type
            == VersionManagerType::Fnm && r@[1].is_installed == fnm_installed && r@[1].is_active
            == fnm_installed && r@[1].path is None,
        r@[2].id@ == "volta"@ && r@[2].name@ == "Volta"@ && r@[2].manager_type
            == VersionManagerType::Volta && r@[2].is_installed == volta_installed
            && r@[2].is_active == volta_installed && opt_text(r@[2].path) == (match opt_text(
            *home,
        ) {
            Some(h) => Some(joined(h, ".volta"@)),
            None => None,
        }),
        r@[3].id@ == "nvm-windows"@ && r@[3].name@ == "nvm-windows"@ && r@[3].manager_type
            == VersionManagerType::NvmWindows && r@[3].is_installed == nvm_installed
            && r@[3].is_active == nvm_installed && opt_text(r@[3].path) == opt_text(nvm_home),
{
    let mut r: Vec<VersionManager> = Vec::new();
    r.push(
        version_manager(
            "jabba",
            "Jabba",
            VersionManagerType::Jabba,
            jabba_installed,
            manager_path(home, ".jabba"),
        ),
    );
    r.push(version_manager("fnm", "fnm", VersionManagerType::Fnm, fnm_installed, None));
    r.push(
        version_manager(
            "volta",
            "Volta",
            VersionManagerType::Volta,
            volta_installed,
            manager_path(home, ".volta"),
        ),
    );
    r.push(
        version_manager(
            "nvm-windows",
            "nvm-windows",
            VersionManagerType::NvmWindows,
            nvm_installed,
            nvm_home,
        ),
    );
    r
}

/// Whether a manager manages Node.
pub open spec fn manages_node(manager_type: VersionManagerType) -> bool {
    manager_type == VersionManagerType::Nvm || manager_type == VersionManagerType::Fnm
        || manager_type == VersionManagerType::Volta || manager_type
        == VersionManagerType::NvmWindows
}

/// The index of the first manager at or after `from` that manages Node and
/// is installed, or the number of managers.
pub open spec fn node_manager_index(managers: Seq<VersionManager>, from: int) -> int
    decreases managers.len() - from,
{
    if from < 0 || from >= managers.len() {
        managers.len() as int
    } else if manages_node(managers[from].manager_type) && managers[from].is_installed {
        from
    } else {
        node_manager_index(managers, from + 1)
    }
}

/// The message where no manager of Node versions is installed.
pub const NO_NODE_MANAGER: &'static str =
    "No Node version manager found. Please install nvm, fnm, or volta to switch Node versions.";

/// The first of the managers that manages Node and is installed, or the
/// message that there is none.
pub fn find_node_manager(managers: &Vec<VersionManager>) -> (r: Result<usize, String>)
    ensures
        match r {
            Ok(i) => i < managers@.len() && node_manager_index(managers@, 0) == i,
            Err(message) => node_manager_index(managers@, 0) == managers@.len() && message@
                == NO_NODE_MANAGER@,
        },
{
    let mut i: usize = 0;
    while i < managers.len()
        invariant
            i <= managers.len(),
            node_manager_index(managers@, 0) == node_manager_index(managers@, i as int),
        decreases managers.len() - i,
    {
        let t = managers[i].manager_type;
        if (t == VersionManagerType::Nvm || t == VersionManagerType::Fnm || t
            == VersionManagerType::Volta || t == VersionManagerType::NvmWindows)
            && managers[i].is_installed {
            return Ok(i);
        }
        i += 1;
    }
    Err(NO_NODE_MANAGER.to_owned())
}

/// The message that a manager of the versions of `tool`, which is `Java` or
/// `Node`, is not known.
pub fn unknown_manager(tool: &str, manager: &str) -> (r: String)
    ensures
        r@ == "Unknown "@ + tool@ + " version manager: "@ + manager@,
{
    crate::text::concat4("Unknown ", tool, " version manager: ", manager)
}

/// The message that a manager does not manage a kind of tool.
pub fn unknown_manager_or_tool(manager_id: &str, tool_type: &str) -> (r: String)
    ensures
        r@ == "Unknown manager or tool type: "@ + manager_id@ + " / "@ + tool_type@,
{
    crate::text::concat4("Unknown manager or tool type: ", manager_id, " / ", tool_type)
}

/// The message that no Maven settings are stored under `config_id`.
pub fn maven_config_not_found(config_id: &str) -> (r: String)
    ensures
        r@ == "Maven config '"@ + config_id@ + "' not found"@,
{
    concat3("Maven config '", config_id, "' not found")
}

/// The name of the file of the Maven settings `config_id`.
pub fn maven_config_file(config_id: &str) -> (r: String)
    ensures
        r@ == config_id@ + ".xml"@,
{
    concat2(config_id, ".xml")
}

/// The record of the Maven settings in use, which are at `path`.
pub fn current_maven_config(path: String, local_repository: Option<String>) -> (r: MavenConfig)
    ensures
        r.id@ == "current"@,
        r.name@ == "Current settings.xml"@,
        r.path@ == path@,
        r.is_active,
        r.description is None,
        opt_text(r.local_repository) == opt_text(local_repository),
{
    MavenConfig {
        id: "current".to_owned(),
        name: "Current settings.xml".to_owned(),
        path,
        is_active: true,
        description: None,
        local_repository,
    }
}

/// The record of the stored Maven settings `name` at `path`: they are
/// active where `current` names their path.
pub fn stored_maven_config(
    name: String,
    path: String,
    current: &Option<String>,
    local_repository: Option<String>,
) -> (r: MavenConfig)
    ensures
        r.id@ == name@,
        r.name@ == name@,
        r.path@ == path@,
        r.is_active == (opt_text(*current) == Some(path@)),
        r.description is None,
        opt_text(r.local_repository) == opt_text(local_repository),
{
    let is_active = match current {
        Some(c) => {
            let a = to_chars(c.as_str());
            let b = to_chars(path.as_str());
            same(&a, &b)
        },
        None => false,
    };
    MavenConfig {
        id: name.clone(),
        name,
        path,
        is_active,
        description: None,
        local_repository,
    }
}


/// How far a search for Maven settings goes below a directory that is found
/// at `depth`: as far as the search went before, where the directory is one
/// of Maven's own, whatever the case of its name; down to the second level,
/// where it is another directory above that level; and not at all otherwise.
pub open spec fn settings_descent_of(dir_name: Seq<char>, depth: usize, max_depth: usize) -> Option<
    usize,
> {
    let lower = lowercase(dir_name);
    if lower == ".m2"@ || lower == "conf"@ || lower == "maven"@ {
        Some(max_depth)
    } else if depth < 2 {
        Some(2usize)
    } else {
        None
    }
}

/// The depth down to which a search for Maven settings goes below the
/// directory `dir_name`, which is found at `depth`; `None` where it does
/// not go into the directory.
pub fn settings_descent(dir_name: &str, depth: usize, max_depth: usize) -> (r: Option<usize>)
    ensures
        r == settings_descent_of(dir_name@, depth, max_depth),
{
    let lower_text = to_lowercase(dir_name);
    let lower = to_chars(lower_text.as_str());
    let m2 = to_chars(".m2");
    let conf = to_chars("conf");
    let maven = to_chars("maven");
    if same(&lower, &m2) || same(&lower, &conf) || same(&lower, &maven) {
        Some(max_depth)
    } else if depth < 2 {
        Some(2)
    } else {
        None
    }
}

/// Whether the name of a file in Maven's directory is that of a settings
/// file, whatever the case of its letters: it begins with `settings` or
/// holds `.m2.`.
pub open spec fn is_m2_settings_name(file_name: Seq<char>) -> bool {
    let lower = lowercase(file_name);
    "settings"@.is_prefix_of(lower) || contains(lower, ".m2."@)
}

/// Whether `file_name` is the name of a settings file in Maven's directory.
pub fn is_m2_settings_file(file_name: &str) -> (r: bool)
    ensures
        r == is_m2_settings_name(file_name@),
{
    let lower_text = to_lowercase(file_name);
    let lower = to_chars(lower_text.as_str());
    begins_with(&lower, "settings") || includes(&lower, ".m2.")
}

/// The home of the Java installation in `dir`: `Contents/Home` below it
/// where that holds the `java` program, or else the directory itself where
/// it holds the program; `None` where neither does.
pub fn java_home_in(dir: &str, program_exists: bool, bundle_program_exists: bool) -> (r: Option<
    String,
>)
    ensures
        opt_text(r) == (if bundle_program_exists {
            Some(joined(dir@, "Contents/Home"@))
        } else if program_exists {
            Some(dir@)
        } else {
            None
        }),
{
    if bundle_program_exists {
        Some(join(dir, "Contents/Home"))
    } else if program_exists {
        Some(dir.to_owned())
    } else {
        None
    }
}

} // verus!
