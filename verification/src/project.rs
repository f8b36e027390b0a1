//! Project metadata: configuration with validation, file tree and symbol
//! shapes, dependency analysis records, and the sandbox limits.
//!
//! Paths are carried as plain strings; an absolute path is one that
//! starts with a path separator. Timestamps are milliseconds since the
//! Unix epoch.

use vstd::prelude::*;
use vstd::string::StrSliceExecFns;
use crate::strutil::{spec_contains, str_contains, spec_starts_with, str_starts_with};

verus! {

/// Whether `char::is_alphanumeric` holds of a character; a property of
/// the character alone, given by the Unicode tables.
pub uninterp spec fn is_alphanumeric_char(c: char) -> bool;

/// Relies on `char::is_alphanumeric`: a property of the character alone.
#[verifier::external_body]
fn char_is_alphanumeric(c: char) -> (r: bool)
    ensures
        r == is_alphanumeric_char(c),
{
    c.is_alphanumeric()
}

/// Whether `char::is_whitespace` holds of a character; a property of
/// the character alone, given by the Unicode tables.
pub uninterp spec fn is_whitespace_char(c: char) -> bool;

/// Relies on `char::is_whitespace`: a property of the character alone.
#[verifier::external_body]
fn char_is_whitespace(c: char) -> (r: bool)
    ensures
        r == is_whitespace_char(c),
{
    c.is_whitespace()
}

/// Supported project types.
#[derive(Debug, Clone, Copy, PartialEq, Eq, Structural)]
pub enum ProjectType {
    Rust,
    JavaScript,
    TypeScript,
    Python,
    Go,
    Java,
    CSharp,
    CPlusPlus,
    Web,
    Generic,
}

/// Language server configuration for one language.
#[derive(Debug, Clone, PartialEq)]
pub struct LanguageServerConfig {
    pub name: String,
    pub command: String,
    pub args: Vec<String>,
    pub file_extensions: Vec<String>,
}

/// Project configuration with validation.
#[derive(Debug, Clone, PartialEq)]
pub struct ProjectConfig {
    pub name: String,
    pub project_type: ProjectType,
    pub root_path: String,
    pub ignore_patterns: Vec<String>,
    pub include_patterns: Vec<String>,
    pub build_command: Option<String>,
    pub test_command: Option<String>,
    pub language_servers: Vec<LanguageServerConfig>,
}

/// A character a project name may hold.
pub open spec fn valid_name_char(c: char) -> bool {
    is_alphanumeric_char(c) || c == ' ' || c == '_' || c == '-' || c == '.'
}

/// A name with no visible character at all.
pub open spec fn name_blank(name: Seq<char>) -> bool {
    forall|i: int| 0 <= i < name.len() ==> is_whitespace_char(#[trigger] name[i])
}

/// Every character of the name is one a project name may hold.
pub open spec fn name_chars_ok(name: Seq<char>) -> bool {
    forall|i: int| 0 <= i < name.len() ==> valid_name_char(#[trigger] name[i])
}

/// A command that matches one of the destructive patterns the validator
/// refuses.
pub open spec fn dangerous_command(cmd: Seq<char>) -> bool {
    ||| spec_contains(cmd, seq!['r', 'm', ' ', '-', 'r', 'f'])
    ||| spec_contains(cmd, seq!['d', 'e', 'l', ' ', '/', 'f'])
    ||| spec_contains(cmd, seq!['f', 'o', 'r', 'm', 'a', 't'])
}

/// An optional command that is absent or harmless.
pub open spec fn command_ok(cmd: Option<String>) -> bool {
    match cmd {
        None => true,
        Some(c) => !dangerous_command(c@),
    }
}

/// A pattern with a parent-directory traversal in it.
pub open spec fn traversal_pattern(p: Seq<char>) -> bool {
    spec_contains(p, seq!['.', '.'])
}

impl ProjectConfig {
    /// Everything `validate` checks, taken together.
    pub open spec fn spec_valid(&self) -> bool {
        &&& !name_blank(self.name@)
        &&& encode_utf8_len_of(self.name@) <= 255
        &&& name_chars_ok(self.name@)
        &&& self.root_path@.len() > 0 && self.root_path@[0] == '/'
        &&& forall|i: int| 0 <= i < self.ignore_patterns@.len() ==> !traversal_pattern(
            #[trigger] self.ignore_patterns@[i]@,
        )
        &&& command_ok(self.build_command)
        &&& command_ok(self.test_command)
    }

    /// Validates the configuration for correctness and for safety of the
    /// configured commands. The checks run in a fixed order and the first
    /// failure names itself; `Ok` comes exactly when all of them pass.
    #[verifier::loop_isolation(false)]
    pub fn validate(&self) -> (r: Result<(), String>)
        ensures
            r is Ok <==> self.spec_valid(),
            name_blank(self.name@) ==> (r matches Err(m) && m@
                == "Project name cannot be empty"@),
    {
        let blank = self.name_is_blank();
        if blank {
            return Err("Project name cannot be empty".to_owned());
        }
        let name_bytes = self.name.as_str().as_bytes();
        if name_bytes.len() > 255 {
            return Err("Project name too long (max 255 characters)".to_owned());
        }
        if !self.name_chars_valid() {
            return Err("Project name contains invalid characters".to_owned());
        }
        if !(self.root_path.as_str().unicode_len() > 0 && self.root_path.as_str().get_char(0)
            == '/') {
            return Err("Root path must be absolute".to_owned());
        }
        proof {
            reveal_strlit("..");
            assert(".."@ =~= seq!['.', '.']);
        }
        let n = self.ignore_patterns.len();
        for i in 0..n
            invariant
                n == self.ignore_patterns@.len(),
                forall|j: int| 0 <= j < i ==> !traversal_pattern(
                    #[trigger] self.ignore_patterns@[j]@,
                ),
                ".."@ =~= seq!['.', '.'],
        {
            if str_contains(self.ignore_patterns[i].as_str(), "..") {
                return Err("Invalid ignore pattern with directory traversal: ".to_owned().concat(
                    self.ignore_patterns[i].as_str(),
                ));
            }
        }
        proof {
            reveal_strlit("rm -rf");
            reveal_strlit("del /f");
            reveal_strlit("format");
            assert("rm -rf"@ =~= seq!['r', 'm', ' ', '-', 'r', 'f']);
            assert("del /f"@ =~= seq!['d', 'e', 'l', ' ', '/', 'f']);
            assert("format"@ =~= seq!['f', 'o', 'r', 'm', 'a', 't']);
        }
        match &self.build_command {
            Some(cmd) => {
                if str_contains(cmd.as_str(), "rm -rf") || str_contains(cmd.as_str(), "del /f")
                    || str_contains(cmd.as_str(), "format") {
                    return Err("Potentially dangerous build command detected".to_owned());
                }
            },
            None => {},
        }
        match &self.test_command {
            Some(cmd) => {
                if str_contains(cmd.as_str(), "rm -rf") || str_contains(cmd.as_str(), "del /f")
                    || str_contains(cmd.as_str(), "format") {
                    return Err("Potentially dangerous test command detected".to_owned());
                }
            },
            None => {},
        }
        Ok(())
    }

    /// Whether the name has no visible character.
    fn name_is_blank(&self) -> (r: bool)
        ensures
            r == name_blank(self.name@),
    {
        let s = self.name.as_str();
        let len = s.unicode_len();
        for i in 0..len
            invariant
                len == self.name@.len(),
                s@ == self.name@,
                forall|k: int| 0 <= k < i ==> is_whitespace_char(#[trigger] self.name@[k]),
        {
            if !char_is_whitespace(s.get_char(i)) {
                return false;
            }
        }
        true
    }

    /// Whether every character of the name is allowed.
    fn name_chars_valid(&self) -> (r: bool)
        ensures
            r == name_chars_ok(self.name@),
    {
        let s = self.name.as_str();
        let len = s.unicode_len();
        for i in 0..len
            invariant
                len == self.name@.len(),
                s@ == self.name@,
                forall|k: int| 0 <= k < i ==> valid_name_char(#[trigger] self.name@[k]),
        {
            let c = s.get_char(i);
            if !(char_is_alphanumeric(c) || c == ' ' || c == '_' || c == '-' || c == '.') {
                return false;
            }
        }
        true
    }
}

/// The UTF-8 byte length of a character sequence.
pub open spec fn encode_utf8_len_of(s: Seq<char>) -> int {
    vstd::utf8::encode_utf8(s).len() as int
}

impl Default for ProjectConfig {
    /// An untitled generic project ignoring the usual build and VCS
    /// directories, including everything else.
    fn default() -> (r: Self)
        ensures
            r.name@ == "Untitled Project"@,
            r.project_type == ProjectType::Generic,
            r.root_path@ == Seq::<char>::empty(),
            r.ignore_patterns@.len() == 5,
            r.ignore_patterns@[0]@ == ".git"@,
            r.ignore_patterns@[1]@ == "node_modules"@,
            r.ignore_patterns@[2]@ == "target"@,
            r.ignore_patterns@[3]@ == ".DS_Store"@,
            r.ignore_patterns@[4]@ == "*.tmp"@,
            r.include_patterns@.len() == 1 && r.include_patterns@[0]@ == "*"@,
            r.build_command is None,
            r.test_command is None,
            r.language_servers@.len() == 0,
    {
        ProjectConfig {
            name: "Untitled Project".to_owned(),
            project_type: ProjectType::Generic,
            root_path: String::new(),
            ignore_patterns: vec![
                ".git".to_owned(),
                "node_modules".to_owned(),
                "target".to_owned(),
                ".DS_Store".to_owned(),
                "*.tmp".to_owned(),
            ],
            include_patterns: vec!["*".to_owned()],
            build_command: None,
            test_command: None,
            language_servers: Vec::new(),
        }
    }
}

/// File tree structure of a scanned project.
#[derive(Debug, Clone, PartialEq)]
pub struct FileTree {
    pub root: String,
    pub files: Vec<FileEntry>,
    pub directories: Vec<DirectoryEntry>,
    pub total_files: usize,
    pub total_size: u64,
}

/// One file of a scanned project.
#[derive(Debug, Clone, PartialEq)]
pub struct FileEntry {
    pub path: String,
    pub relative_path: String,
    pub size: u64,
    pub extension: Option<String>,
    pub is_text: bool,
}

/// One directory of a scanned project.
#[derive(Debug, Clone, PartialEq)]
pub struct DirectoryEntry {
    pub path: String,
    pub relative_path: String,
    pub file_count: usize,
}

/// A source symbol for navigation.
#[derive(Debug, Clone, PartialEq)]
pub struct Symbol {
    pub name: String,
    pub kind: SymbolKind,
    pub location: SymbolLocation,
    pub container: Option<String>,
}

/// The kinds of source symbols the index distinguishes.
#[derive(Debug, Clone, Copy, PartialEq, Eq, Structural)]
pub enum SymbolKind {
    Function,
    Class,
    Interface,
    Variable,
    Constant,
    Module,
    Namespace,
    Property,
    Method,
    Struct,
    Enum,
    Trait,
}

/// Where a symbol stands in the sources.
#[derive(Debug, Clone, PartialEq)]
pub struct SymbolLocation {
    pub file: String,
    pub line: u32,
    pub column: u32,
    /// Start and end line of the whole definition, when known.
    pub range: Option<(u32, u32)>,
}

/// Dependency graph of a project, by section.
#[derive(Debug, Clone, PartialEq, Default)]
pub struct DependencyGraph {
    dependencies: Vec<Dependency>,
    dev_dependencies: Vec<Dependency>,
    build_dependencies: Vec<Dependency>,
}

/// One declared dependency.
#[derive(Debug, Clone, PartialEq)]
pub struct Dependency {
    pub name: String,
    pub version: String,
    pub source: DependencySource,
}

/// Where a dependency comes from.
#[derive(Debug, Clone, PartialEq)]
pub enum DependencySource {
    Registry,
    Git { url: String, branch: Option<String> },
    Path { path: String },
}

/// File system events a project watcher reports.
#[derive(Debug, Clone, PartialEq)]
pub enum FileSystemEvent {
    Created(String),
    Modified(String),
    Deleted(String),
    Renamed(String, String),
}

/// Limits a project sandbox imposes.
#[derive(Debug, Clone, PartialEq)]
pub struct ProjectSandboxConfig {
    /// Allowed base directories for projects; the boundary layer fills
    /// this from the directories that exist on the machine.
    pub allowed_directories: Vec<String>,
    /// Maximum project size in bytes.
    pub max_project_size: u64,
    /// Maximum file size in bytes.
    pub max_file_size: u64,
    /// Maximum number of files in a project.
    pub max_file_count: usize,
}

impl Default for ProjectSandboxConfig {
    /// The stock limits: 10 GiB per project, 100 MiB per file, 100000
    /// files; no directory allowed until the boundary layer adds some.
    fn default() -> (r: Self)
        ensures
            r.allowed_directories@.len() == 0,
            r.max_project_size == 10737418240u64,
            r.max_file_size == 104857600u64,
            r.max_file_count == 100000,
    {
        ProjectSandboxConfig {
            allowed_directories: Vec::new(),
            max_project_size: 10737418240,
            max_file_size: 104857600,
            max_file_count: 100000,
        }
    }
}

/// Statistics of an open project.
#[derive(Debug, Clone, PartialEq)]
pub struct ProjectStats {
    pub total_files: usize,
    pub total_size: u64,
    pub total_dependencies: usize,
    /// When the index last ran, in milliseconds since the Unix epoch.
    pub last_indexed: Option<u64>,
}

/// The lower-cased prefixes of system locations a project sandbox never
/// allows as a working directory.
pub open spec fn system_prefixes() -> Seq<Seq<char>> {
    seq![
        "c:\\windows"@,
        "c:\\program files"@,
        "c:\\programdata"@,
        "/etc"@,
        "/sys"@,
        "/proc"@,
        "/dev"@,
        "/boot"@,
        "/bin"@,
        "/sbin"@,
        "/lib"@,
        "/usr/bin"@,
        "/usr/sbin"@,
        "/system"@,
        "/library"@,
        "/private"@,
    ]
}

/// Whether a path lies in a system location. The path must already be
/// lower-cased; the boundary layer lower-cases and canonicalizes.
pub open spec fn spec_is_system_path(path: Seq<char>) -> bool {
    exists|i: int| 0 <= i < system_prefixes().len() && spec_starts_with(
        path,
        #[trigger] system_prefixes()[i],
    )
}

/// Whether a lower-cased path lies in a system location the sandbox
/// refuses.
pub fn is_system_path(path_lower: &str) -> (r: bool)
    ensures
        r == spec_is_system_path(path_lower@),
{
    let prefixes = [
        "c:\\windows",
        "c:\\program files",
        "c:\\programdata",
        "/etc",
        "/sys",
        "/proc",
        "/dev",
        "/boot",
        "/bin",
        "/sbin",
        "/lib",
        "/usr/bin",
        "/usr/sbin",
        "/system",
        "/library",
        "/private",
    ];
    for i in 0..16usize
        invariant
            forall|j: int| 0 <= j < i ==> !spec_starts_with(
                path_lower@,
                #[trigger] system_prefixes()[j],
            ),
            prefixes@.len() == 16,
            forall|j: int| 0 <= j < 16 ==> prefixes@[j]@ == system_prefixes()[j],
    {
        if str_starts_with(path_lower, prefixes[i]) {
            proof {
                assert(spec_starts_with(path_lower@, system_prefixes()[i as int]));
            }
            return true;
        }
    }
    false
}

} // verus!
