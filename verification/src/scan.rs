//! Finding instances by the names of their JAR files.

use vstd::prelude::*;
use crate::bindings::{
    captures, compile_pattern, groups_view, is_match, lowercase, pattern_compiles,
    pattern_error_text, pattern_groups, pattern_matches, pattern_of, to_lowercase,
};
use crate::instance::{opt_text, texts, AemInstanceType};
use crate::number::{parse_unsigned, unsigned_of};
use crate::paths::{joined};
use crate::platform::common::{push_joined, push_text};
use crate::text::{
    begins_with, concat2, contains, ends_with, includes, same, strip_trailing, to_chars, to_string,
    without_trailing,
};

verus! {

/// An instance that was found by its JAR file.
#[derive(Debug, Clone)]
pub struct ScannedAemInstance {
    pub name: String,
    pub path: String,
    pub instance_type: AemInstanceType,
    pub port: u16,
    pub jar_path: Option<String>,
    /// The license file in the same directory, where there is one.
    pub license_file_path: Option<String>,
}

/// The pattern of a JAR name that tells type and port, as in
/// `aem-author-p4502.jar`.
pub const TYPE_PORT_PATTERN: &'static str = "^(?:aem|cq)-?(author|publish)-?p(\\d+)\\.jar$";

/// The pattern of the JAR name of an SDK quickstart.
pub const SDK_PATTERN: &'static str = "^aem-sdk-quickstart.*\\.jar$";

/// The pattern of the JAR name of an older quickstart.
pub const CQ_PATTERN: &'static str = "^cq-?quickstart.*\\.jar$";

/// The port of an instance whose JAR name tells none.
pub open spec fn default_port(instance_type: AemInstanceType) -> u16 {
    match instance_type {
        AemInstanceType::Author => 4502,
        AemInstanceType::Publish => 4503,
        AemInstanceType::Dispatcher => 80,
    }
}

/// The type and the port that a JAR name tells, given the groups of its
/// match with the pattern of type and port and whether it matches the
/// patterns of the quickstarts. Where the first pattern matches, its first
/// group tells the type, which is `Author` unless the group is `publish`,
/// and its second group tells the port, where it writes one that fits;
/// otherwise the type's default port stands in. A quickstart is an author
/// on port 4502. Any other name tells nothing.
pub open spec fn classification_of(
    groups: Option<Seq<Option<Seq<char>>>>,
    is_sdk: bool,
    is_cq: bool,
) -> Option<(AemInstanceType, u16)> {
    match groups {
        Some(found) => {
            let instance_type = if found.len() > 1 && found[1] == Some("publish"@) {
                AemInstanceType::Publish
            } else {
                AemInstanceType::Author
            };
            let port = if found.len() > 2 && found[2] is Some {
                unsigned_of(found[2]->0, u16::MAX as int)
            } else {
                None
            };
            Some(
                (
                    instance_type,
                    match port {
                        Some(p) => p as u16,
                        None => default_port(instance_type),
                    },
                ),
            )
        },
        None => if is_sdk || is_cq {
            Some((AemInstanceType::Author, 4502u16))
        } else {
            None
        },
    }
}

/// The type and the port that a JAR name tells, given the groups of its
/// match with the pattern of type and port and whether it matches the
/// patterns of the quickstarts.
pub fn classify_jar(groups: &Option<Vec<Option<String>>>, is_sdk: bool, is_cq: bool) -> (r: Option<
    (AemInstanceType, u16),
>)
    ensures
        r == classification_of(groups_view(*groups), is_sdk, is_cq),
{
    match groups {
        Some(found) => {
            let publish = to_chars("publish");
            let is_publish = if found.len() > 1 {
                match &found[1] {
                    Some(word) => {
                        let chars = to_chars(word.as_str());
                        same(&chars, &publish)
                    },
                    None => false,
                }
            } else {
                false
            };
            let instance_type = if is_publish {
                AemInstanceType::Publish
            } else {
                AemInstanceType::Author
            };
            let port: Option<u16> = if found.len() > 2 {
                match &found[2] {
                    Some(digits) => {
                        let chars = to_chars(digits.as_str());
                        match parse_unsigned(&chars, 0xffff) {
                            Some(p) => Some(p as u16),
                            None => None,
                        }
                    },
                    None => None,
                }
            } else {
                None
            };
            let port = match port {
                Some(p) => p,
                None => match instance_type {
                    AemInstanceType::Author => 4502,
                    AemInstanceType::Publish => 4503,
                    AemInstanceType::Dispatcher => 80,
                },
            };
            Some((instance_type, port))
        },
        None => {
            if is_sdk || is_cq {
                Some((AemInstanceType::Author, 4502))
            } else {
                None
            }
        },
    }
}

/// The three patterns by which JAR names are read, compiled.
pub struct JarPatterns {
    type_port: regex::Regex,
    sdk: regex::Regex,
    cq: regex::Regex,
}

/// Whether the three patterns by which JAR names are read compile.
pub open spec fn patterns_compile() -> bool {
    pattern_compiles(TYPE_PORT_PATTERN@) && pattern_compiles(SDK_PATTERN@) && pattern_compiles(
        CQ_PATTERN@,
    )
}

/// The message that a pattern did not compile.
pub fn pattern_error(error: &regex::Error) -> (r: String)
    ensures
        exists|text: Seq<char>| r@ == "Regex error: "@ + text,
{
    let text = pattern_error_text(error);
    let r = concat2("Regex error: ", text.as_str());
    proof {
        assert(r@ == "Regex error: "@ + text@);
    }
    r
}

impl JarPatterns {
    /// Each expression is that of its pattern.
    pub closed spec fn well_formed(&self) -> bool {
        &&& pattern_of(self.type_port) == Some(TYPE_PORT_PATTERN@)
        &&& pattern_of(self.sdk) == Some(SDK_PATTERN@)
        &&& pattern_of(self.cq) == Some(CQ_PATTERN@)
    }

    /// Compiles the patterns; fails with a message where one does not
    /// compile, and only there.
    pub fn new() -> (r: Result<JarPatterns, String>)
        ensures
            r is Ok <==> patterns_compile(),
            match r {
                Ok(patterns) => patterns.well_formed(),
                Err(message) => exists|text: Seq<char>| message@ == "Regex error: "@ + text,
            },
    {
        let type_port = match compile_pattern(TYPE_PORT_PATTERN) {
            Ok(re) => re,
            Err(e) => {
                return Err(pattern_error(&e));
            },
        };
        let sdk = match compile_pattern(SDK_PATTERN) {
            Ok(re) => re,
            Err(e) => {
                return Err(pattern_error(&e));
            },
        };
        let cq = match compile_pattern(CQ_PATTERN) {
            Ok(re) => re,
            Err(e) => {
                return Err(pattern_error(&e));
            },
        };
        Ok(JarPatterns { type_port, sdk, cq })
    }

    /// The type and the port that the JAR name `file_name` tells.
    pub fn classify(&self, file_name: &str) -> (r: Option<(AemInstanceType, u16)>)
        requires
            self.well_formed(),
        ensures
            r == jar_classification(file_name@),
    {
        let groups = captures(&self.type_port, file_name);
        if groups.is_some() {
            classify_jar(&groups, false, false)
        } else if is_match(&self.sdk, file_name) {
            classify_jar(&groups, true, false)
        } else {
            let is_cq = is_match(&self.cq, file_name);
            classify_jar(&groups, false, is_cq)
        }
    }
}

/// The type and the port that a JAR name tells by the three patterns.
pub open spec fn jar_classification(file_name: Seq<char>) -> Option<(AemInstanceType, u16)> {
    classification_of(
        pattern_groups(TYPE_PORT_PATTERN@, file_name),
        pattern_matches(SDK_PATTERN@, file_name),
        pattern_matches(CQ_PATTERN@, file_name),
    )
}

/// What the name of a file tells of an instance: its name, which is the
/// file's name in lower case without the ending, its type and its port.
pub struct JarReading {
    pub name: Seq<char>,
    pub instance_type: AemInstanceType,
    pub port: u16,
}

/// What the name of a JAR file tells: an error where the name does not end
/// in `.jar`, whatever the case of its letters, and nothing where it fits
/// none of the patterns.
pub open spec fn jar_reading_of(file_name: Seq<char>) -> Result<Option<JarReading>, Seq<char>> {
    let lower = lowercase(file_name);
    if !".jar"@.is_suffix_of(lower) {
        Err("File is not a JAR file"@)
    } else {
        match jar_classification(lower) {
            Some(found) => Ok(
                Some(
                    JarReading {
                        name: strip_trailing(lower, ".jar"@),
                        instance_type: found.0,
                        port: found.1,
                    },
                ),
            ),
            None => Ok(None),
        }
    }
}

/// What the name of a file tells of an instance, read by `patterns`.
pub fn read_jar_name(patterns: &JarPatterns, file_name: &str) -> (r: Result<
    Option<(String, AemInstanceType, u16)>,
    String,
>)
    requires
        patterns.well_formed(),
    ensures
        match r {
            Ok(Some(found)) => jar_reading_of(file_name@) == Ok::<
                Option<JarReading>,
                Seq<char>,
            >(Some(JarReading { name: found.0@, instance_type: found.1, port: found.2 })),
            Ok(None) => jar_reading_of(file_name@) == Ok::<Option<JarReading>, Seq<char>>(None),
            Err(message) => jar_reading_of(file_name@) == Err::<Option<JarReading>, Seq<char>>(
                message@,
            ),
        },
{
    let lower_text = to_lowercase(file_name);
    let lower = to_chars(lower_text.as_str());
    if !ends_with(&lower, ".jar") {
        return Err("File is not a JAR file".to_owned());
    }
    match patterns.classify(lower_text.as_str()) {
        Some(found) => {
            let name = to_string(&without_trailing(&lower, ".jar"));
            Ok(Some((name, found.0, found.1)))
        },
        None => Ok(None),
    }
}

/// The view of what the name of a file told.
pub open spec fn reading_view(r: Result<Option<(String, AemInstanceType, u16)>, String>) -> Result<
    Option<JarReading>,
    Seq<char>,
> {
    match r {
        Ok(Some(found)) => Ok(
            Some(JarReading { name: found.0@, instance_type: found.1, port: found.2 }),
        ),
        Ok(None) => Ok(None),
        Err(message) => Err(message@),
    }
}

/// What the name of a file tells of an instance. A name that does not end in
/// `.jar` is refused before anything else; after that the patterns are
/// compiled, and where one does not compile, its error is the result.
pub fn parse_jar_name(
    file_name: &str,
) -> (r: Result<Option<(String, AemInstanceType, u16)>, String>)
    ensures
        jar_reading_of(file_name@) is Err || patterns_compile() ==> reading_view(r)
            == jar_reading_of(file_name@),
        jar_reading_of(file_name@) is Ok && !patterns_compile() ==> (r matches Err(message)
            && exists|text: Seq<char>| message@ == "Regex error: "@ + text),
{
    let lower_text = to_lowercase(file_name);
    let lower = to_chars(lower_text.as_str());
    if !ends_with(&lower, ".jar") {
        return Err("File is not a JAR file".to_owned());
    }
    match JarPatterns::new() {
        Ok(patterns) => read_jar_name(&patterns, file_name),
        Err(message) => Err(message),
    }
}

/// The record of an instance that was found: the JAR file at `jar_path` in
/// the directory `directory` told `reading`.
pub fn scanned_instance(
    reading: (String, AemInstanceType, u16),
    directory: String,
    jar_path: String,
    license_file_path: Option<String>,
) -> (r: ScannedAemInstance)
    ensures
        r.name@ == reading.0@,
        r.path@ == directory@,
        r.instance_type == reading.1,
        r.port == reading.2,
        opt_text(r.jar_path) == Some(jar_path@),
        opt_text(r.license_file_path) == opt_text(license_file_path),
{
    ScannedAemInstance {
        name: reading.0,
        path: directory,
        instance_type: reading.1,
        port: reading.2,
        jar_path: Some(jar_path),
        license_file_path,
    }
}

/// Whether a found instance goes before another: an author goes before a
/// publisher, and otherwise the lower port goes first.
pub open spec fn goes_before(a: (AemInstanceType, u16), b: (AemInstanceType, u16)) -> bool {
    if a.0 == AemInstanceType::Author && b.0 == AemInstanceType::Publish {
        true
    } else if a.0 == AemInstanceType::Publish && b.0 == AemInstanceType::Author {
        false
    } else {
        a.1 < b.1
    }
}

/// Whether `a` goes before `b` in the list of found instances.
pub fn scanned_before(a: &ScannedAemInstance, b: &ScannedAemInstance) -> (r: bool)
    ensures
        r == goes_before((a.instance_type, a.port), (b.instance_type, b.port)),
{
    if a.instance_type == AemInstanceType::Author && b.instance_type == AemInstanceType::Publish {
        true
    } else if a.instance_type == AemInstanceType::Publish && b.instance_type
        == AemInstanceType::Author {
        false
    } else {
        a.port < b.port
    }
}

/// Whether the name of a file is that of a quickstart JAR.
pub open spec fn is_quickstart_name(name: Seq<char>) -> bool {
    ".jar"@.is_suffix_of(name) && ("aem-"@.is_prefix_of(name) || "cq-"@.is_prefix_of(name)
        || contains(name, "quickstart"@))
}

/// Whether `name` is the name of a quickstart JAR.
pub fn is_quickstart_jar(name: &str) -> (r: bool)
    ensures
        r == is_quickstart_name(name@),
{
    let n = to_chars(name);
    ends_with(&n, ".jar") && (begins_with(&n, "aem-") || begins_with(&n, "cq-") || includes(
        &n,
        "quickstart",
    ))
}

/// The names under which a license file is looked for, in their order.
pub fn license_file_names() -> (r: Vec<String>)
    ensures
        texts(r@) == seq![
            "license.properties"@,
            "License.properties"@,
            "LICENSE.properties"@,
            "license-key.txt"@,
            "aem-license.properties"@,
        ],
{
    let mut r: Vec<String> = Vec::new();
    proof {
        assert(texts(r@) =~= Seq::<Seq<char>>::empty());
    }
    push_text(&mut r, "license.properties".to_owned());
    push_text(&mut r, "License.properties".to_owned());
    push_text(&mut r, "LICENSE.properties".to_owned());
    push_text(&mut r, "license-key.txt".to_owned());
    push_text(&mut r, "aem-license.properties".to_owned());
    proof {
        assert(texts(r@) =~= seq![
            "license.properties"@,
            "License.properties"@,
            "LICENSE.properties"@,
            "license-key.txt"@,
            "aem-license.properties"@,
        ]);
    }
    r
}

/// The paths under which a license file is looked for in `dir`.
pub fn find_license_file(dir: &str) -> (r: Vec<String>)
    ensures
        texts(r@) == seq![
            joined(dir@, "license.properties"@),
            joined(dir@, "License.properties"@),
            joined(dir@, "LICENSE.properties"@),
            joined(dir@, "license-key.txt"@),
            joined(dir@, "aem-license.properties"@),
        ],
{
    let mut r: Vec<String> = Vec::new();
    proof {
        assert(texts(r@) =~= Seq::<Seq<char>>::empty());
    }
    push_joined(&mut r, dir, "license.properties");
    push_joined(&mut r, dir, "License.properties");
    push_joined(&mut r, dir, "LICENSE.properties");
    push_joined(&mut r, dir, "license-key.txt");
    push_joined(&mut r, dir, "aem-license.properties");
    proof {
        assert(texts(r@) =~= seq![
            joined(dir@, "license.properties"@),
            joined(dir@, "License.properties"@),
            joined(dir@, "LICENSE.properties"@),
            joined(dir@, "license-key.txt"@),
            joined(dir@, "aem-license.properties"@),
        ]);
    }
    r
}


/// The first of the directories under the home directory where instances
/// are commonly kept: those of the application itself.
pub open spec fn product_dir_names() -> Seq<Seq<char>> {
    seq!["aem"@, "AEM"@, "Adobe"@, "Adobe/AEM"@, "Adobe/aem"@, "opt/aem"@, "opt/AEM"@]
}

/// The next of them: those of development.
pub open spec fn development_dir_names() -> Seq<Seq<char>> {
    seq![
        "Development"@,
        "Development/aem"@,
        "Development/AEM"@,
        "dev"@,
        "Dev"@,
        "projects"@,
        "Projects"@,
        "workspace"@,
        "Workspace"@,
        "work"@,
        "Work"@,
    ]
}

/// The last of them: those of code and of local installations.
pub open spec fn local_dir_names() -> Seq<Seq<char>> {
    seq![
        "code"@,
        "Code"@,
        "src"@,
        "my-code"@,
        "local"@,
        "Local"@,
        "apps"@,
        "Apps"@,
        "Applications"@,
    ]
}

/// The directories under the home directory where instances are commonly
/// kept, in the order in which they are looked at.
pub open spec fn common_dir_names() -> Seq<Seq<char>> {
    product_dir_names() + development_dir_names() + local_dir_names()
}

/// The directories of the given names under `home`.
pub open spec fn under(home: Seq<char>, names: Seq<Seq<char>>) -> Seq<Seq<char>> {
    names.map_values(|name: Seq<char>| joined(home, name))
}

/// Adds the directories of the given names under `h`.
fn push_all_under(r: &mut Vec<String>, h: &str, names: &Vec<String>)
    ensures
        texts(final(r)@) == texts(old(r)@) + under(h@, texts(names@)),
{
    let mut i: usize = 0;
    proof {
        assert(texts(names@).len() == names@.len());
        assert(texts(r@) =~= texts(old(r)@) + under(h@, texts(names@).take(0)));
    }
    while i < names.len()
        invariant
            i <= names.len(),
            texts(names@).len() == names@.len(),
            texts(r@) == texts(old(r)@) + under(h@, texts(names@).take(i as int)),
        decreases names.len() - i,
    {
        let ghost before = texts(r@);
        push_joined(r, h, names[i].as_str());
        proof {
            assert(texts(names@)[i as int] == names@[i as int]@);
            assert(under(h@, texts(names@).take(i + 1)) =~= under(
                h@,
                texts(names@).take(i as int),
            ).push(joined(h@, names@[i as int]@)));
            assert(texts(r@) =~= texts(old(r)@) + under(h@, texts(names@).take(i + 1)));
        }
        i += 1;
    }
    proof {
        assert(texts(names@).take(names@.len() as int) =~= texts(names@));
    }
}

/// The names of the application's own directories.
fn product_dirs() -> (r: Vec<String>)
    ensures
        texts(r@) == product_dir_names(),
{
    let mut r: Vec<String> = Vec::new();
    proof {
        assert(texts(r@) =~= Seq::<Seq<char>>::empty());
    }
    push_text(&mut r, "aem".to_owned());
    push_text(&mut r, "AEM".to_owned());
    push_text(&mut r, "Adobe".to_owned());
    push_text(&mut r, "Adobe/AEM".to_owned());
    push_text(&mut r, "Adobe/aem".to_owned());
    push_text(&mut r, "opt/aem".to_owned());
    push_text(&mut r, "opt/AEM".to_owned());
    proof {
        assert(texts(r@) =~= product_dir_names());
    }
    r
}

/// The names of the directories of development.
fn development_dirs() -> (r: Vec<String>)
    ensures
        texts(r@) == development_dir_names(),
{
    let mut r: Vec<String> = Vec::new();
    proof {
        assert(texts(r@) =~= Seq::<Seq<char>>::empty());
    }
    push_text(&mut r, "Development".to_owned());
    push_text(&mut r, "Development/aem".to_owned());
    push_text(&mut r, "Development/AEM".to_owned());
    push_text(&mut r, "dev".to_owned());
    push_text(&mut r, "Dev".to_owned());
    push_text(&mut r, "projects".to_owned());
    push_text(&mut r, "Projects".to_owned());
    push_text(&mut r, "workspace".to_owned());
    push_text(&mut r, "Workspace".to_owned());
    push_text(&mut r, "work".to_owned());
    push_text(&mut r, "Work".to_owned());
    proof {
        assert(texts(r@) =~= development_dir_names());
    }
    r
}

/// The names of the directories of code and of local installations.
fn local_dirs() -> (r: Vec<String>)
    ensures
        texts(r@) == local_dir_names(),
{
    let mut r: Vec<String> = Vec::new();
    proof {
        assert(texts(r@) =~= Seq::<Seq<char>>::empty());
    }
    push_text(&mut r, "code".to_owned());
    push_text(&mut r, "Code".to_owned());
    push_text(&mut r, "src".to_owned());
    push_text(&mut r, "my-code".to_owned());
    push_text(&mut r, "local".to_owned());
    push_text(&mut r, "Local".to_owned());
    push_text(&mut r, "apps".to_owned());
    push_text(&mut r, "Apps".to_owned());
    push_text(&mut r, "Applications".to_owned());
    proof {
        assert(texts(r@) =~= local_dir_names());
    }
    r
}

/// The directories where instances are looked for, before those that do
/// not exist are left out: the given ones, then the base directory of the
/// settings where it is not empty, then the common ones under the home
/// directory, where that is known, and at last `/opt/aem`.
pub open spec fn scan_dirs_of(
    custom: Seq<Seq<char>>,
    base_dir: Seq<char>,
    home: Option<Seq<char>>,
) -> Seq<Seq<char>> {
    custom + (if base_dir.len() > 0 {
        seq![base_dir]
    } else {
        Seq::empty()
    }) + (match home {
        Some(h) => under(h, common_dir_names()),
        None => Seq::empty(),
    }) + seq!["/opt/aem"@]
}

/// The directories where instances are looked for.
pub fn scan_directories(custom: &Vec<String>, base_dir: &str, home: &Option<String>) -> (r: Vec<
    String,
>)
    ensures
        texts(r@) == scan_dirs_of(texts(custom@), base_dir@, opt_text(*home)),
{
    let mut r = crate::instance::copy_texts(custom);
    if !base_dir.is_empty() {
        push_text(&mut r, base_dir.to_owned());
    }
    let ghost head = texts(r@);
    proof {
        assert(head =~= texts(custom@) + (if base_dir@.len() > 0 {
            seq![base_dir@]
        } else {
            Seq::<Seq<char>>::empty()
        }));
    }
    match home {
        Some(h) => {
            push_all_under(&mut r, h.as_str(), &product_dirs());
            push_all_under(&mut r, h.as_str(), &development_dirs());
            push_all_under(&mut r, h.as_str(), &local_dirs());
            proof {
                assert(under(h@, product_dir_names()) + under(h@, development_dir_names())
                    + under(h@, local_dir_names()) =~= under(h@, common_dir_names()));
                assert(texts(r@) =~= head + under(h@, common_dir_names()));
            }
        },
        None => {
            proof {
                assert(texts(r@) =~= head + Seq::<Seq<char>>::empty());
            }
        },
    }
    push_text(&mut r, "/opt/aem".to_owned());
    r
}

/// The message that a directory does not exist.
pub fn directory_missing(directory: &str) -> (r: String)
    ensures
        r@ == "Directory does not exist: "@ + directory@,
{
    concat2("Directory does not exist: ", directory)
}

/// The message that a path is no directory.
pub fn not_a_directory(directory: &str) -> (r: String)
    ensures
        r@ == "Path is not a directory: "@ + directory@,
{
    concat2("Path is not a directory: ", directory)
}

/// The message that a file does not exist.
pub fn file_missing(path: &str) -> (r: String)
    ensures
        r@ == "File does not exist: "@ + path@,
{
    concat2("File does not exist: ", path)
}

/// The message that a path is no file.
pub fn not_a_file(path: &str) -> (r: String)
    ensures
        r@ == "Path is not a file: "@ + path@,
{
    concat2("Path is not a file: ", path)
}

} // verus!
