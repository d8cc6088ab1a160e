//! Log configuration: a root level and levels for individual targets.

use vstd::prelude::*;
use vstd::string::StringExecFns;

verus! {

/// A log level, from the most to the least severe.
#[derive(Debug, Clone, Copy, PartialEq, Eq, Hash, PartialOrd, Ord, Structural)]
pub enum Level {
    Error,
    Warn,
    Info,
    Debug,
    Trace,
}

/// A log target, e.g. a module path.
#[derive(Debug, Clone, PartialEq, Eq, Hash, PartialOrd, Ord)]
pub struct Target(pub(crate) String);

impl View for Target {
    type V = Seq<char>;

    open(crate) spec fn view(&self) -> Seq<char> {
        self.0@
    }
}

impl Target {
    /// A target with the given name.
    pub fn new(value: String) -> (r: Target)
        ensures
            r@ == value@,
    {
        Target(value)
    }

    /// A target with the given name.
    pub fn from_str(value: &str) -> (r: Target)
        ensures
            r@ == value@,
    {
        Target(value.to_owned())
    }

    /// The target's name.
    pub fn as_str(&self) -> (r: &str)
        ensures
            r@ == self@,
    {
        self.0.as_str()
    }

    /// The target `self::target`.
    pub fn append(&self, target: Target) -> (r: Target)
        ensures
            r@ == self@ + "::"@ + target@,
    {
        let s = String::from_str(self.0.as_str()).concat("::").concat(target.0.as_str());
        Target(s)
    }
}

/// The target levels after setting `target` to `level`: an existing entry for the target is
/// replaced in place, a new target is added at the end.
pub open spec fn with_level(s: Seq<(Seq<char>, Level)>, target: Seq<char>, level: Level) -> Seq<
    (Seq<char>, Level),
> {
    if exists|i: int| 0 <= i < s.len() && s[i].0 == target {
        let i = choose|i: int| 0 <= i < s.len() && s[i].0 == target;
        s.update(i, (target, level))
    } else {
        s.push((target, level))
    }
}

/// Targets appear at most once.
pub open spec fn unique_targets(s: Seq<(Seq<char>, Level)>) -> bool {
    forall|i: int, j: int| 0 <= i < j < s.len() ==> s[i].0 != s[j].0
}

fn find_target(levels: &Vec<(Target, Level)>, target: &Target) -> (r: Option<usize>)
    ensures
        r matches Some(i) ==> i < levels@.len() && levels_view(levels@)[i as int].0 == target@,
        r is None ==> forall|j: int| 0 <= j < levels@.len() ==> levels_view(levels@)[j].0 != target@,
{
    let mut i: usize = 0;
    while i < levels.len()
        invariant
            i <= levels@.len(),
            forall|j: int| 0 <= j < i ==> levels_view(levels@)[j].0 != target@,
        decreases levels@.len() - i,
    {
        if levels[i].0.0 == target.0 {
            return Some(i);
        }
        i = i + 1;
    }
    None
}

/// Log configuration.
#[derive(Debug)]
pub struct LogConfig {
    pub(crate) root_level: Level,
    pub(crate) target_levels: Option<Vec<(Target, Level)>>,
}

/// The target levels as names and levels.
pub open spec fn levels_view(v: Seq<(Target, Level)>) -> Seq<(Seq<char>, Level)> {
    v.map_values(|e: (Target, Level)| (e.0@, e.1))
}

impl LogConfig {
    pub open(crate) spec fn spec_root_level(&self) -> Level {
        self.root_level
    }

    /// The configured target levels, in the order targets were first configured.
    pub open(crate) spec fn spec_target_levels(&self) -> Option<Seq<(Seq<char>, Level)>> {
        match self.target_levels {
            None => None,
            Some(v) => Some(levels_view(v@)),
        }
    }

    /// The root level.
    pub fn root_level(&self) -> (r: Level)
        ensures
            r == self.spec_root_level(),
    {
        self.root_level
    }

    /// The configured target levels, if any.
    pub fn target_levels(&self) -> (r: Option<&Vec<(Target, Level)>>)
        ensures
            match self.spec_target_levels() {
                None => r is None,
                Some(s) => r matches Some(v) && levels_view(v@) == s,
            },
    {
        match &self.target_levels {
            None => None,
            Some(v) => Some(v),
        }
    }
}

impl Default for LogConfig {
    /// Root level `Warn`, no target levels.
    fn default() -> (r: LogConfig)
        ensures
            r.spec_root_level() == Level::Warn,
            r.spec_target_levels() is None,
    {
        LogConfig { root_level: Level::Warn, target_levels: None }
    }
}

/// Builds a log configuration.
#[derive(Debug)]
pub struct LogConfigBuilder {
    pub(crate) config: LogConfig,
}

impl LogConfigBuilder {
    pub open(crate) spec fn spec_config(&self) -> &LogConfig {
        &self.config
    }

    /// A builder with the given root level and no target levels.
    pub fn new(root_level: Level) -> (r: LogConfigBuilder)
        ensures
            r.spec_config().spec_root_level() == root_level,
            r.spec_config().spec_target_levels() is None,
    {
        LogConfigBuilder { config: LogConfig { root_level, target_levels: None } }
    }

    /// Sets the level of `target`.
    pub fn target_level(self, target: Target, level: Level) -> (r: LogConfigBuilder)
        requires
            self.spec_config().spec_target_levels() matches Some(s) ==> unique_targets(s),
        ensures
            r.spec_config().spec_root_level() == self.spec_config().spec_root_level(),
            r.spec_config().spec_target_levels() == Some(
                with_level(
                    match self.spec_config().spec_target_levels() {
                        None => Seq::empty(),
                        Some(s) => s,
                    },
                    target@,
                    level,
                ),
            ),
            unique_targets(r.spec_config().spec_target_levels()->0),
    {
        let LogConfigBuilder { config } = self;
        let LogConfig { root_level, target_levels } = config;
        let mut levels = match target_levels {
            None => Vec::new(),
            Some(v) => v,
        };
        let ghost before = levels_view(levels@);
        match find_target(&levels, &target) {
            Some(i) => {
                proof {
                    let c = choose|k: int| 0 <= k < before.len() && before[k].0 == target@;
                    if c != i {
                        if c < i {
                            assert(before[c].0 != before[i as int].0);
                        } else {
                            assert(before[i as int].0 != before[c].0);
                        }
                    }
                }
                levels.set(i, (target, level));
                assert(levels_view(levels@) =~= before.update(i as int, (target@, level)));
            },
            None => {
                levels.push((target, level));
                assert(levels_view(levels@) =~= before.push((target@, level)));
            },
        }
        LogConfigBuilder { config: LogConfig { root_level, target_levels: Some(levels) } }
    }

    /// The configuration.
    pub fn build(self) -> (r: LogConfig)
        ensures
            r.spec_root_level() == self.spec_config().spec_root_level(),
            r.spec_target_levels() == self.spec_config().spec_target_levels(),
    {
        self.config
    }
}

} // verus!
