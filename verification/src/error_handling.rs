//! Central error handling: contextual metadata, the domain error
//! taxonomy, recovery strategies, and pluggable error reporters.
//!
//! Underlying causes that arrive from outside are carried as rendered
//! text, and reporters answer with `Result<(), String>`; the boundary
//! layer does any actual logging.

use vstd::prelude::*;

verus! {

/// Whether some entry's key reads as `k`.
pub open spec fn has_skey<V>(s: Seq<(String, V)>, k: Seq<char>) -> bool {
    exists|i: int| 0 <= i < s.len() && s[i].0@ == k
}

/// The index of the entry whose key reads as `k`; meaningful when such
/// an entry exists and the keys are distinct.
pub open spec fn skey_idx<V>(s: Seq<(String, V)>, k: Seq<char>) -> int {
    choose|i: int| 0 <= i < s.len() && s[i].0@ == k
}

/// No two entries share a key.
pub open spec fn distinct_skeys<V>(s: Seq<(String, V)>) -> bool {
    forall|i: int, j: int| 0 <= i < j < s.len() ==> s[i].0@ != s[j].0@
}

/// The value bound to a key, when any: the semantics of a map carried
/// as a keyed list.
pub open spec fn skey_lookup<V>(s: Seq<(String, V)>, k: Seq<char>) -> Option<V> {
    if has_skey(s, k) {
        Some(s[skey_idx(s, k)].1)
    } else {
        None
    }
}

/// With distinct keys, `skey_idx` names the one entry holding the key.
pub proof fn lemma_skey_idx<V>(s: Seq<(String, V)>, k: Seq<char>, i: int)
    requires
        distinct_skeys(s),
        0 <= i < s.len(),
        s[i].0@ == k,
    ensures
        skey_idx(s, k) == i,
        has_skey(s, k),
{
    assert(has_skey(s, k));
    let j = skey_idx(s, k);
    assert(0 <= j < s.len() && s[j].0@ == k);
    if j != i {
        if j < i {
            assert(s[j].0@ != s[i].0@);
        } else {
            assert(s[i].0@ != s[j].0@);
        }
    }
}

/// Context attached to a handled error: where it happened and for whom.
#[derive(Debug, Clone, PartialEq)]
pub struct ErrorContext {
    pub operation: String,
    pub component: String,
    pub user_id: Option<String>,
    pub file_path: Option<String>,
    /// Extra key/value data; keys are unique, the latest value wins.
    pub additional_data: Vec<(String, String)>,
}

impl ErrorContext {
    /// A context naming the operation and the component it ran in.
    pub fn new(operation: &str, component: &str) -> (r: Self)
        ensures
            r.operation@ == operation@,
            r.component@ == component@,
            r.user_id is None,
            r.file_path is None,
            r.additional_data@ == Seq::<(String, String)>::empty(),
    {
        ErrorContext {
            operation: operation.to_owned(),
            component: component.to_owned(),
            user_id: None,
            file_path: None,
            additional_data: Vec::new(),
        }
    }

    /// The same context, attributed to a user.
    pub fn with_user(self, user_id: &str) -> (r: Self)
        ensures
            r.user_id matches Some(u) && u@ == user_id@,
            r.operation == self.operation,
            r.component == self.component,
            r.file_path == self.file_path,
            r.additional_data == self.additional_data,
    {
        ErrorContext { user_id: Some(user_id.to_owned()), ..self }
    }

    /// The same context, attributed to a file.
    pub fn with_file(self, file_path: &str) -> (r: Self)
        ensures
            r.file_path matches Some(f) && f@ == file_path@,
            r.operation == self.operation,
            r.component == self.component,
            r.user_id == self.user_id,
            r.additional_data == self.additional_data,
    {
        ErrorContext { file_path: Some(file_path.to_owned()), ..self }
    }

    /// The same context with `key` bound to `value`: an entry already
    /// holding the key is overwritten, any other key gets a new pair
    /// appended, so distinct keys stay distinct.
    #[verifier::loop_isolation(false)]
    pub fn with_data(self, key: &str, value: &str) -> (r: Self)
        ensures
            r.operation == self.operation,
            r.component == self.component,
            r.user_id == self.user_id,
            r.file_path == self.file_path,
            has_skey(r.additional_data@, key@),
            distinct_skeys(self.additional_data@) ==> distinct_skeys(r.additional_data@),
            !has_skey(self.additional_data@, key@) ==> ({
                let s = self.additional_data@;
                let t = r.additional_data@;
                &&& t.len() == s.len() + 1
                &&& t.subrange(0, s.len() as int) == s
                &&& t[s.len() as int].0@ == key@
                &&& t[s.len() as int].1@ == value@
            }),
            has_skey(self.additional_data@, key@) && distinct_skeys(self.additional_data@) ==> ({
                let s = self.additional_data@;
                let t = r.additional_data@;
                let i = skey_idx(s, key@);
                &&& t.len() == s.len()
                &&& t[i].0@ == key@
                &&& t[i].1@ == value@
                &&& forall|j: int| 0 <= j < s.len() && j != i ==> t[j] == s[j]
            }),
    {
        let mut data = self.additional_data;
        let ghost s = data@;
        let key_owned = key.to_owned();
        let n = data.len();
        for i in 0..n
            invariant
                data@ == s,
                n == s.len(),
                key_owned@ == key@,
                forall|j: int| 0 <= j < i ==> s[j].0@ != key@,
        {
            if data[i].0 == key_owned {
                let retained = data[i].0.clone();
                data[i] = (retained, value.to_owned());
                proof {
                    let t = data@;
                    assert(t[i as int].0@ == key@);
                    assert(has_skey(t, key@));
                    if distinct_skeys(s) {
                        lemma_skey_idx(s, key@, i as int);
                        assert forall|a: int, b: int| 0 <= a < b < t.len() implies t[a].0@
                            != t[b].0@ by {
                            assert(t[a].0@ == s[a].0@);
                            assert(t[b].0@ == s[b].0@);
                        }
                    }
                }
                return ErrorContext {
                    operation: self.operation,
                    component: self.component,
                    user_id: self.user_id,
                    file_path: self.file_path,
                    additional_data: data,
                };
            }
        }
        data.push((key_owned, value.to_owned()));
        proof {
            let t = data@;
            assert(t.subrange(0, s.len() as int) =~= s);
            assert(t[s.len() as int].0@ == key@);
            assert(has_skey(t, key@));
            if distinct_skeys(s) {
                assert forall|a: int, b: int| 0 <= a < b < t.len() implies t[a].0@ != t[b].0@ by {
                    if b < s.len() {
                        assert(t[a] == s[a] && t[b] == s[b]);
                    } else {
                        assert(t[a] == s[a] && t[b].0@ == key@);
                    }
                }
            }
        }
        ErrorContext {
            operation: self.operation,
            component: self.component,
            user_id: self.user_id,
            file_path: self.file_path,
            additional_data: data,
        }
    }
}

/// Domain-specific errors of the IDE. Underlying sources are carried as
/// their rendered text.
#[derive(Debug, Clone, PartialEq)]
pub enum AtomError {
    FileSystem { message: String, path: String, source: Option<String> },
    TextBuffer { message: String, buffer_id: String, line: Option<usize>, column: Option<usize> },
    Plugin { plugin_name: String, message: String, plugin_version: String, source: Option<String> },
    Configuration { message: String, config_key: String, config_file: Option<String> },
    LanguageServer { language: String, message: String, server_command: String, source: Option<
        String,
    > },
    Theme { message: String, theme_name: String, component: String },
    Performance { message: String, operation: String, duration_ms: u64, threshold_ms: u64 },
    Security { message: String, violation_type: String, severity: SecuritySeverity },
    Network { message: String, url: Option<String>, status_code: Option<u16>, source: Option<
        String,
    > },
    DependencyInjection { message: String, service_type: String },
    Internal { message: String, component: String, source: Option<String> },
}

/// Severity grades of a security violation.
#[derive(Debug, Clone, Copy, PartialEq, Eq, Structural)]
pub enum SecuritySeverity {
    Low,
    Medium,
    High,
    Critical,
}

impl SecuritySeverity {
    /// The upper-case label of the severity.
    pub fn as_str(&self) -> (r: &'static str)
        ensures
            self == SecuritySeverity::Low ==> r@ == "LOW"@,
            self == SecuritySeverity::Medium ==> r@ == "MEDIUM"@,
            self == SecuritySeverity::High ==> r@ == "HIGH"@,
            self == SecuritySeverity::Critical ==> r@ == "CRITICAL"@,
    {
        match self {
            SecuritySeverity::Low => "LOW",
            SecuritySeverity::Medium => "MEDIUM",
            SecuritySeverity::High => "HIGH",
            SecuritySeverity::Critical => "CRITICAL",
        }
    }
}

/// What to do after an error of a given type.
#[derive(Debug, Clone, PartialEq)]
pub enum RecoveryStrategy {
    Retry { max_attempts: u32, delay_ms: u64 },
    Fallback { fallback_action: String },
    UserPrompt { message: String, options: Vec<String> },
    Ignore,
    Shutdown,
}

/// A sink that errors and recovery attempts are reported to.
pub trait ErrorReporter {
    fn report_error(&self, error: &AtomError, context: &ErrorContext) -> Result<(), String>;

    fn report_recovery_attempt(&self, error: &AtomError, strategy: &RecoveryStrategy) -> Result<
        (),
        String,
    >;
}

/// The name of an error's type, used to look up a recovery strategy.
pub open spec fn spec_error_type(error: AtomError) -> Seq<char> {
    match error {
        AtomError::FileSystem { .. } => "file_system"@,
        AtomError::TextBuffer { .. } => "text_buffer"@,
        AtomError::Plugin { .. } => "plugin"@,
        AtomError::Configuration { .. } => "configuration"@,
        AtomError::LanguageServer { .. } => "language_server"@,
        AtomError::Theme { .. } => "theme"@,
        AtomError::Performance { .. } => "performance"@,
        AtomError::Security { .. } => "security"@,
        AtomError::Network { .. } => "network"@,
        AtomError::DependencyInjection { .. } => "dependency_injection"@,
        AtomError::Internal { .. } => "internal"@,
    }
}

/// Error handler: maps error types to recovery strategies and fans
/// reports out to the registered reporters.
pub struct ErrorHandler {
    recovery_strategies: Vec<(String, RecoveryStrategy)>,
    error_reporters: Vec<Box<dyn ErrorReporter>>,
}

impl ErrorHandler {
    /// The registered strategies, as name/strategy pairs with distinct
    /// names; the latest registration for a name wins.
    pub closed spec fn strategies_view(&self) -> Seq<(String, RecoveryStrategy)> {
        self.recovery_strategies@
    }

    /// The strategy names are distinct; every operation keeps this.
    pub open spec fn strategies_wf(&self) -> bool {
        distinct_skeys(self.strategies_view())
    }

    /// A handler with no strategies and no reporters.
    pub fn new() -> (r: Self)
        ensures
            r.strategies_view() == Seq::<(String, RecoveryStrategy)>::empty(),
            r.strategies_wf(),
    {
        ErrorHandler { recovery_strategies: Vec::new(), error_reporters: Vec::new() }
    }

    /// Registers the strategy for errors of the named type: a strategy
    /// already registered for the name is replaced, a new name gets an
    /// entry appended; strategies for other names are untouched.
    #[verifier::loop_isolation(false)]
    pub fn register_recovery_strategy(&mut self, error_type: &str, strategy: RecoveryStrategy)
        requires
            old(self).strategies_wf(),
        ensures
            final(self).strategies_wf(),
            skey_lookup(final(self).strategies_view(), error_type@) == Some(strategy),
            forall|k: Seq<char>| k != error_type@ ==> #[trigger] skey_lookup(
                final(self).strategies_view(),
                k,
            ) == skey_lookup(old(self).strategies_view(), k),
    {
        let ghost s = self.recovery_strategies@;
        let name_owned = error_type.to_owned();
        let n = self.recovery_strategies.len();
        for i in 0..n
            invariant
                self.recovery_strategies@ == s,
                n == s.len(),
                name_owned@ == error_type@,
                forall|j: int| 0 <= j < i ==> s[j].0@ != error_type@,
        {
            if self.recovery_strategies[i].0 == name_owned {
                let retained = self.recovery_strategies[i].0.clone();
                self.recovery_strategies[i] = (retained, strategy);
                proof {
                    let t = self.recovery_strategies@;
                    lemma_skey_idx(s, error_type@, i as int);
                    assert forall|a: int, b: int| 0 <= a < b < t.len() implies t[a].0@ != t[b].0@
                        by {
                        assert(t[a].0@ == s[a].0@);
                        assert(t[b].0@ == s[b].0@);
                    }
                    lemma_skey_idx(t, error_type@, i as int);
                    assert forall|k: Seq<char>| k != error_type@ implies skey_lookup(t, k)
                        == skey_lookup(s, k) by {
                        if has_skey(s, k) {
                            let j = skey_idx(s, k);
                            assert(0 <= j < s.len() && s[j].0@ == k);
                            assert(t[j].0@ == k);
                            lemma_skey_idx(t, k, j);
                        } else {
                            if has_skey(t, k) {
                                let j = skey_idx(t, k);
                                assert(0 <= j < t.len() && t[j].0@ == k);
                                assert(s[j].0@ == t[j].0@);
                                assert(false);
                            }
                        }
                    }
                }
                return ;
            }
        }
        self.recovery_strategies.push((name_owned, strategy));
        proof {
            let t = self.recovery_strategies@;
            assert(t[s.len() as int].0@ == error_type@);
            assert forall|a: int, b: int| 0 <= a < b < t.len() implies t[a].0@ != t[b].0@ by {
                if b < s.len() {
                    assert(t[a] == s[a] && t[b] == s[b]);
                } else {
                    assert(t[a] == s[a] && t[b].0@ == error_type@);
                }
            }
            lemma_skey_idx(t, error_type@, s.len() as int);
            assert forall|k: Seq<char>| k != error_type@ implies skey_lookup(t, k) == skey_lookup(
                s,
                k,
            ) by {
                if has_skey(s, k) {
                    let j = skey_idx(s, k);
                    assert(0 <= j < s.len() && s[j].0@ == k);
                    assert(t[j] == s[j]);
                    lemma_skey_idx(t, k, j);
                } else {
                    if has_skey(t, k) {
                        let j = skey_idx(t, k);
                        assert(0 <= j < t.len() && t[j].0@ == k);
                        if j < s.len() {
                            assert(s[j].0@ == k);
                        } else {
                            assert(t[j].0@ == error_type@);
                        }
                        assert(false);
                    }
                }
            }
        }
    }

    /// The strategy registered for an error type name, when any: the
    /// lookup error handling resolves recovery with.
    #[verifier::loop_isolation(false)]
    pub fn recovery_strategy_for(&self, error_type: &str) -> (r: Option<&RecoveryStrategy>)
        requires
            self.strategies_wf(),
        ensures
            match skey_lookup(self.strategies_view(), error_type@) {
                Some(st) => r matches Some(x) && *x == st,
                None => r is None,
            },
    {
        let ghost s = self.recovery_strategies@;
        let name_owned = error_type.to_owned();
        let n = self.recovery_strategies.len();
        for i in 0..n
            invariant
                n == s.len(),
                name_owned@ == error_type@,
                forall|j: int| 0 <= j < i ==> s[j].0@ != error_type@,
        {
            if self.recovery_strategies[i].0 == name_owned {
                proof {
                    lemma_skey_idx(s, error_type@, i as int);
                }
                return Some(&self.recovery_strategies[i].1);
            }
        }
        None
    }

    /// Adds a reporter that future errors are reported to. The reporters
    /// are opaque sinks; only the strategy table is modelled.
    pub fn add_reporter(&mut self, reporter: Box<dyn ErrorReporter>)
        ensures
            final(self).strategies_view() == old(self).strategies_view(),
    {
        self.error_reporters.push(reporter);
    }

    /// The name of an error's type, the key strategies are registered by.
    pub fn get_error_type(&self, error: &AtomError) -> (r: &'static str)
        ensures
            r@ == spec_error_type(*error),
    {
        match error {
            AtomError::FileSystem { .. } => "file_system",
            AtomError::TextBuffer { .. } => "text_buffer",
            AtomError::Plugin { .. } => "plugin",
            AtomError::Configuration { .. } => "configuration",
            AtomError::LanguageServer { .. } => "language_server",
            AtomError::Theme { .. } => "theme",
            AtomError::Performance { .. } => "performance",
            AtomError::Security { .. } => "security",
            AtomError::Network { .. } => "network",
            AtomError::DependencyInjection { .. } => "dependency_injection",
            AtomError::Internal { .. } => "internal",
        }
    }
}

impl Default for ErrorHandler {
    /// Same as `new`: no strategies, no reporters.
    fn default() -> (r: Self)
        ensures
            r.strategies_view() == Seq::<(String, RecoveryStrategy)>::empty(),
            r.strategies_wf(),
    {
        ErrorHandler::new()
    }
}

/// Reporter whose reports always succeed; the boundary layer wraps it
/// with actual log output.
pub struct LoggingErrorReporter;

impl LoggingErrorReporter {
    /// The variant name of an error, as reports label it.
    pub fn get_error_type_name(&self, error: &AtomError) -> (r: &'static str)
        ensures
            error matches AtomError::FileSystem { .. } ==> r@ == "FileSystem"@,
            error matches AtomError::TextBuffer { .. } ==> r@ == "TextBuffer"@,
            error matches AtomError::Plugin { .. } ==> r@ == "Plugin"@,
            error matches AtomError::Configuration { .. } ==> r@ == "Configuration"@,
            error matches AtomError::LanguageServer { .. } ==> r@ == "LanguageServer"@,
            error matches AtomError::Theme { .. } ==> r@ == "Theme"@,
            error matches AtomError::Performance { .. } ==> r@ == "Performance"@,
            error matches AtomError::Security { .. } ==> r@ == "Security"@,
            error matches AtomError::Network { .. } ==> r@ == "Network"@,
            error matches AtomError::DependencyInjection { .. } ==> r@ == "DependencyInjection"@,
            error matches AtomError::Internal { .. } ==> r@ == "Internal"@,
    {
        match error {
            AtomError::FileSystem { .. } => "FileSystem",
            AtomError::TextBuffer { .. } => "TextBuffer",
            AtomError::Plugin { .. } => "Plugin",
            AtomError::Configuration { .. } => "Configuration",
            AtomError::LanguageServer { .. } => "LanguageServer",
            AtomError::Theme { .. } => "Theme",
            AtomError::Performance { .. } => "Performance",
            AtomError::Security { .. } => "Security",
            AtomError::Network { .. } => "Network",
            AtomError::DependencyInjection { .. } => "DependencyInjection",
            AtomError::Internal { .. } => "Internal",
        }
    }
}

impl ErrorReporter for LoggingErrorReporter {
    fn report_error(&self, error: &AtomError, context: &ErrorContext) -> Result<(), String> {
        Ok(())
    }

    fn report_recovery_attempt(&self, error: &AtomError, strategy: &RecoveryStrategy) -> Result<
        (),
        String,
    > {
        Ok(())
    }
}

/// Adds operation and component context to a result whose error is
/// already rendered text.
pub trait AtomErrorExt<T>: Sized {
    fn with_atom_context(self, operation: &str, component: &str) -> Result<T, String>;

    fn with_atom_context_detailed(self, context: ErrorContext) -> Result<T, String>;
}

impl<T> AtomErrorExt<T> for Result<T, String> {
    /// Prefixes any error with the failed operation and its component.
    fn with_atom_context(self, operation: &str, component: &str) -> (r: Result<T, String>)
        ensures
            self matches Ok(v) ==> r == Ok::<T, String>(v),
            self matches Err(e) ==> (r matches Err(m) && m@ == "Operation '"@ + operation@
                + "' failed in component '"@ + component@ + "': "@ + e@),
    {
        match self {
            Ok(v) => Ok(v),
            Err(e) => Err(
                "Operation '".to_owned().concat(operation).concat("' failed in component '")
                    .concat(component).concat("': ").concat(e.as_str()),
            ),
        }
    }

    /// Prefixes any error with the operation and component of a context.
    fn with_atom_context_detailed(self, context: ErrorContext) -> (r: Result<T, String>)
        ensures
            self matches Ok(v) ==> r == Ok::<T, String>(v),
            self matches Err(e) ==> (r matches Err(m) && m@ == "Operation '"@ + context.operation@
                + "' failed in component '"@ + context.component@ + "': "@ + e@),
    {
        match self {
            Ok(v) => Ok(v),
            Err(e) => Err(
                "Operation '".to_owned().concat(context.operation.as_str()).concat(
                    "' failed in component '",
                ).concat(context.component.as_str()).concat("': ").concat(e.as_str()),
            ),
        }
    }
}

/// Installs the stock recovery strategies: retries for file system and
/// network errors, one retry for language servers, a fallback for
/// plugins, a user prompt for configuration, shutdown for security and
/// internal errors, and ignoring performance issues. Strategies for
/// other error types are untouched.
#[verifier::rlimit(50)]
pub fn setup_default_recovery_strategies(error_handler: &mut ErrorHandler)
    requires
        old(error_handler).strategies_wf(),
    ensures
        final(error_handler).strategies_wf(),
        ({
            let v = final(error_handler).strategies_view();
            &&& skey_lookup(v, "file_system"@) == Some(
                RecoveryStrategy::Retry { max_attempts: 3, delay_ms: 1000 },
            )
            &&& (skey_lookup(v, "plugin"@) matches Some(st) && (st matches
                RecoveryStrategy::Fallback { fallback_action } && fallback_action@
                == "disable_plugin"@))
            &&& skey_lookup(v, "language_server"@) == Some(
                RecoveryStrategy::Retry { max_attempts: 1, delay_ms: 2000 },
            )
            &&& (skey_lookup(v, "configuration"@) matches Some(st) && (st matches
                RecoveryStrategy::UserPrompt { message, options } && message@
                == "Configuration error detected. Would you like to reset to defaults?"@
                && options@.len() == 2 && options@[0]@ == "Reset to defaults"@ && options@[1]@
                == "Edit manually"@))
            &&& skey_lookup(v, "performance"@) == Some(RecoveryStrategy::Ignore)
            &&& skey_lookup(v, "security"@) == Some(RecoveryStrategy::Shutdown)
            &&& skey_lookup(v, "network"@) == Some(
                RecoveryStrategy::Retry { max_attempts: 5, delay_ms: 1000 },
            )
            &&& skey_lookup(v, "internal"@) == Some(RecoveryStrategy::Shutdown)
        }),
        forall|k: Seq<char>|
            k != "file_system"@ && k != "plugin"@ && k != "language_server"@ && k
                != "configuration"@ && k != "performance"@ && k != "security"@ && k != "network"@
                && k != "internal"@ ==> #[trigger] skey_lookup(
                final(error_handler).strategies_view(),
                k,
            ) == skey_lookup(old(error_handler).strategies_view(), k),
{
    proof {
        reveal_strlit("file_system");
        reveal_strlit("plugin");
        reveal_strlit("language_server");
        reveal_strlit("configuration");
        reveal_strlit("performance");
        reveal_strlit("security");
        reveal_strlit("network");
        reveal_strlit("internal");
        assert("file_system"@.len() == 11);
        assert("plugin"@.len() == 6);
        assert("language_server"@.len() == 15);
        assert("configuration"@.len() == 13);
        assert("performance"@.len() == 11);
        assert("security"@.len() == 8);
        assert("network"@.len() == 7);
        assert("internal"@.len() == 8);
        assert("file_system"@[0] != "performance"@[0]);
        assert("security"@[0] != "internal"@[0]);
        assert("file_system"@ != "plugin"@);
        assert("file_system"@ != "language_server"@);
        assert("file_system"@ != "configuration"@);
        assert("file_system"@ != "performance"@);
        assert("file_system"@ != "security"@);
        assert("file_system"@ != "network"@);
        assert("file_system"@ != "internal"@);
        assert("plugin"@ != "language_server"@);
        assert("plugin"@ != "configuration"@);
        assert("plugin"@ != "performance"@);
        assert("plugin"@ != "security"@);
        assert("plugin"@ != "network"@);
        assert("plugin"@ != "internal"@);
        assert("language_server"@ != "configuration"@);
        assert("language_server"@ != "performance"@);
        assert("language_server"@ != "security"@);
        assert("language_server"@ != "network"@);
        assert("language_server"@ != "internal"@);
        assert("configuration"@ != "performance"@);
        assert("configuration"@ != "security"@);
        assert("configuration"@ != "network"@);
        assert("configuration"@ != "internal"@);
        assert("performance"@ != "security"@);
        assert("performance"@ != "network"@);
        assert("performance"@ != "internal"@);
        assert("security"@ != "network"@);
        assert("security"@ != "internal"@);
        assert("network"@ != "internal"@);
    }
    error_handler.register_recovery_strategy(
        "file_system",
        RecoveryStrategy::Retry { max_attempts: 3, delay_ms: 1000 },
    );
    error_handler.register_recovery_strategy(
        "plugin",
        RecoveryStrategy::Fallback { fallback_action: "disable_plugin".to_owned() },
    );
    error_handler.register_recovery_strategy(
        "language_server",
        RecoveryStrategy::Retry { max_attempts: 1, delay_ms: 2000 },
    );
    error_handler.register_recovery_strategy(
        "configuration",
        RecoveryStrategy::UserPrompt {
            message: "Configuration error detected. Would you like to reset to defaults?"
                .to_owned(),
            options: vec!["Reset to defaults".to_owned(), "Edit manually".to_owned()],
        },
    );
    error_handler.register_recovery_strategy("performance", RecoveryStrategy::Ignore);
    error_handler.register_recovery_strategy("security", RecoveryStrategy::Shutdown);
    error_handler.register_recovery_strategy(
        "network",
        RecoveryStrategy::Retry { max_attempts: 5, delay_ms: 1000 },
    );
    error_handler.register_recovery_strategy("internal", RecoveryStrategy::Shutdown);
}

} // verus!
