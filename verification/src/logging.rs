//! Where log output goes, and at which level.
//!
//! Two modes, because the two ways of running autospot are read in different places:
//!
//! ```text
//!              log directory                             file level      console
//!   Console    %USERPROFILE%\Documents\autospot\logs     logging.file_level    yes
//!   Service    %ProgramData%\autospot\logs               logging.service_level no
//! ```
//!
//! In console mode the console is the primary place output is read live, so the file
//! defaults to `error` and doesn't fill up with routine status lines. As a service there
//! is no console, so the file is the only place output is read and defaults to `info`.
//! Neither uses the working directory: Task Scheduler and the Service Control Manager
//! don't guarantee a useful one.

use crate::config::{parse_level, Config, Level};
use crate::paths::{is_absolute_path, join};
use vstd::prelude::*;

verus! {

/// How autospot is running, which is what decides where the log file lives and how much
/// goes into it.
#[derive(Debug, Clone, Copy, PartialEq, Eq, Structural)]
pub enum Mode {
    Console,
    Service,
}

/// The level that `configured` names, or `fallback`.
pub open spec fn level_or(configured: Seq<char>, fallback: Level) -> Level {
    match crate::config::level_named(configured) {
        Some(level) => level,
        None => fallback,
    }
}

/// The level that `configured` names, or `fallback`.
pub fn level(configured: &str, fallback: Level) -> (r: Level)
    ensures
        r == level_or(configured@, fallback),
{
    match parse_level(configured) {
        Some(level) => level,
        None => fallback,
    }
}

/// Level for the console.
pub open spec fn console_level(cfg: Config) -> Level {
    level_or(cfg.logging.stdout_level@, Level::Info)
}

/// Level for the console.
pub fn stdout_level(cfg: &Config) -> (r: Level)
    ensures
        r == console_level(*cfg),
{
    level(cfg.logging.stdout_level.as_str(), Level::Info)
}

impl Mode {
    /// The environment variable that names the directory this mode's log directory is under.
    /// For a service that is machine-wide, writable by LocalSystem, and easy to find
    /// regardless of which account the service runs as.
    pub fn root_variable(self) -> (r: &'static str)
        ensures
            r@ == match self {
                Mode::Console => "USERPROFILE"@,
                Mode::Service => "ProgramData"@,
            },
    {
        match self {
            Mode::Console => "USERPROFILE",
            Mode::Service => "ProgramData",
        }
    }

    /// The log directory, as seen from the one that [`Mode::root_variable`] names.
    pub open spec fn subdirectory(self) -> Seq<char> {
        match self {
            Mode::Console => "Documents\\autospot\\logs"@,
            Mode::Service => "autospot\\logs"@,
        }
    }

    /// The log directory, where `root` is the one that [`Mode::root_variable`] names, if it
    /// does.
    pub open spec fn directory(self, root: Option<Seq<char>>) -> Seq<char> {
        match root {
            Some(root) => crate::paths::joined(root, self.subdirectory()),
            None => "."@,
        }
    }

    /// Directory a relative `logging.path` is resolved against. `root` is the value of
    /// [`Mode::root_variable`]; without one it is the current directory, rather than a
    /// failure.
    pub fn log_dir(self, root: Option<&str>) -> (r: String)
        ensures
            r@ == self.directory(crate::text::text_of(root)),
    {
        match root {
            Some(root) => match self {
                Mode::Console => join(root, "Documents\\autospot\\logs"),
                Mode::Service => join(root, "autospot\\logs"),
            },
            None => ".".to_string(),
        }
    }

    /// Level for the log file.
    pub open spec fn level_of_file(self, cfg: Config) -> Level {
        match self {
            Mode::Console => level_or(cfg.logging.file_level@, Level::Error),
            Mode::Service => level_or(cfg.logging.service_level@, Level::Info),
        }
    }

    /// Level for the log file, and the default when the configured name is unrecognised
    /// (which `Config` validation rejects anyway).
    pub fn file_level(self, cfg: &Config) -> (r: Level)
        ensures
            r == self.level_of_file(*cfg),
    {
        match self {
            Mode::Console => level(cfg.logging.file_level.as_str(), Level::Error),
            Mode::Service => level(cfg.logging.service_level.as_str(), Level::Info),
        }
    }

    /// Is there a console to log to?
    pub fn logs_to_console(self) -> (r: bool)
        ensures
            r == (self == Mode::Console),
    {
        self == Mode::Console
    }
}

/// Where the log file is -- see [`resolve_path`].
pub open spec fn log_file(configured: Seq<char>, log_dir: Seq<char>) -> Seq<char> {
    if crate::paths::is_absolute(configured) {
        configured
    } else {
        crate::paths::joined(log_dir, configured)
    }
}

/// A relative `logging.path` lands under the mode's log directory; an absolute one
/// overrides it entirely.
pub fn resolve_path(configured: &str, log_dir: &str) -> (r: String)
    ensures
        r@ == log_file(configured@, log_dir@),
{
    if is_absolute_path(configured) {
        return configured.to_string();
    }
    join(log_dir, configured)
}

/// The directory of the log file -- see [`log_directory`].
pub open spec fn directory_of(parent: Option<Seq<char>>) -> Seq<char> {
    match parent {
        Some(p) if p.len() > 0 => p,
        _ => "."@,
    }
}

/// The directory of the log file: its parent, or where we stand for a bare file name, which
/// has no parent to speak of.
pub fn log_directory<'a>(parent: Option<&'a str>) -> (r: &'a str)
    ensures
        r@ == directory_of(crate::text::text_of(parent)),
{
    match parent {
        Some(p) => if p.unicode_len() > 0 {
            p
        } else {
            "."
        },
        None => ".",
    }
}

/// The name of the log file, if the path has one.
pub fn log_file_name<'a>(name: Option<&'a str>) -> (r: Result<&'a str, &'static str>)
    ensures
        match r {
            Ok(n) => name is Some && n@ == name->0@,
            Err(e) => name is None && e@ == "logging.path has no file name"@,
        },
{
    match name {
        Some(n) => Ok(n),
        None => Err("logging.path has no file name"),
    }
}

// --- laws ------------------------------------------------------------------------

/// The two modes never log under the same directory of one root.
pub proof fn law_each_mode_has_its_own_directory(root: Seq<char>)
    ensures
        crate::paths::joined(root, Mode::Console.subdirectory()) != crate::paths::joined(
            root,
            Mode::Service.subdirectory(),
        ),
{
    reveal_strlit("Documents\\autospot\\logs");
    reveal_strlit("autospot\\logs");
    reveal_strlit("Documents");
    reveal_strlit("autospot");
    reveal_strlit("logs");
    reveal_strlit("\\");
    let console = Mode::Console.subdirectory();
    let service = Mode::Service.subdirectory();
    assert(console[0] == 'D');
    assert(service[0] == 'a');
    assert(console[1] == 'o');
    assert(service[1] == 'u');
    assert(crate::paths::prefix_len(console) == 0);
    assert(crate::paths::prefix_len(service) == 0);
    let one = crate::paths::joined(root, console);
    let other = crate::paths::joined(root, service);
    if crate::paths::is_verbatim(root) {
        assert(service =~= "autospot"@.push('\\') + "logs"@);
        assert(console =~= ("Documents"@.push('\\') + "autospot"@).push('\\') + "logs"@);
        assert(crate::paths::backslashed(service) =~= service);
        assert(crate::paths::backslashed(console) =~= console);
        crate::text::lemma_split_one("autospot"@, '\\');
        crate::text::lemma_split_last("autospot"@, '\\', "logs"@);
        crate::text::lemma_split_one("Documents"@, '\\');
        crate::text::lemma_split_last("Documents"@, '\\', "autospot"@);
        crate::text::lemma_split_last(
            "Documents"@.push('\\') + "autospot"@,
            '\\',
            "logs"@,
        );
        lemma_all_filled(crate::text::split_on(service, '\\'));
        lemma_all_filled(crate::text::split_on(console, '\\'));
        let start = crate::paths::components(crate::paths::behind_prefix(root));
        let short = seq!["autospot"@, "logs"@];
        let long = seq!["Documents"@, "autospot"@, "logs"@];
        assert(crate::paths::components(service) =~= short);
        assert(crate::paths::components(console) =~= long);
        lemma_plain_way(start, seq![], "autospot"@);
        lemma_plain_way(start, seq!["autospot"@], "logs"@);
        lemma_plain_way(start, seq![], "Documents"@);
        lemma_plain_way(start, seq!["Documents"@], "autospot"@);
        lemma_plain_way(start, seq!["Documents"@, "autospot"@], "logs"@);
        assert(short =~= seq![].push("autospot"@).push("logs"@));
        assert(seq!["autospot"@] =~= seq![].push("autospot"@));
        assert(long =~= seq!["Documents"@, "autospot"@].push("logs"@));
        assert(seq!["Documents"@, "autospot"@] =~= seq!["Documents"@].push("autospot"@));
        assert(seq!["Documents"@] =~= seq![].push("Documents"@));
        assert(short =~= seq!["autospot"@].push("logs"@));
        let sep = "\\"@;
        let s1 = start.push("autospot"@);
        crate::text::lemma_joined_len(start, "autospot"@, sep);
        crate::text::lemma_joined_len(s1, "logs"@, sep);
        let c1 = start.push("Documents"@);
        let c2 = c1.push("autospot"@);
        crate::text::lemma_joined_len(start, "Documents"@, sep);
        crate::text::lemma_joined_len(c1, "autospot"@, sep);
        crate::text::lemma_joined_len(c2, "logs"@, sep);
    }
    assert(one.len() == other.len() + 10);
}

/// Where no piece is empty, all of them are components.
proof fn lemma_all_filled(pieces: Seq<Seq<char>>)
    requires
        forall|i: int| 0 <= i < pieces.len() ==> (#[trigger] pieces[i]).len() > 0,
    ensures
        pieces.filter(|c: Seq<char>| c.len() > 0) == pieces,
    decreases pieces.len(),
{
    reveal(Seq::filter);
    if pieces.len() > 0 {
        let rest = pieces.drop_last();
        assert forall|i: int| 0 <= i < rest.len() implies (#[trigger] rest[i]).len() > 0 by {
            assert(rest[i] == pieces[i]);
        }
        lemma_all_filled(rest);
        assert(pieces[pieces.len() - 1].len() > 0);
        assert(rest.push(pieces.last()) =~= pieces);
    }
}

/// A component that is no dots leads on.
proof fn lemma_plain_way(start: Seq<Seq<char>>, way: Seq<Seq<char>>, component: Seq<char>)
    requires
        component.len() > 2,
    ensures
        crate::paths::follow_all(start, way.push(component)) == crate::paths::follow_all(
            start,
            way,
        ).push(component),
{
    assert(way.push(component).drop_last() =~= way);
    assert(seq!['.'].len() == 1);
    assert(seq!['.', '.'].len() == 2);
}

/// A known level is used as it is configured, whatever the fallback; the fallback is used for
/// any other name.
pub proof fn law_a_known_level_is_used(configured: Seq<char>, fallback: Level)
    ensures
        ({
            let word = crate::text::ascii_lower(crate::text::trimmed(configured));
            let level = level_or(configured, fallback);
            &&& word == "error"@ ==> level == Level::Error
            &&& word == "warn"@ || word == "warning"@ ==> level == Level::Warn
            &&& word == "info"@ ==> level == Level::Info
            &&& word == "debug"@ ==> level == Level::Debug
            &&& word == "trace"@ ==> level == Level::Trace
            &&& word != "error"@ && word != "warn"@ && word != "warning"@ && word != "info"@
                && word != "debug"@ && word != "trace"@ ==> level == fallback
        }),
{
    crate::config::law_the_names_of_the_levels(configured);
}

/// The console, the file and the file of the service each go by a setting of their own: a
/// known level that is configured for one is used for it, and the others make no difference.
pub proof fn law_every_output_has_its_own_level(cfg: Config, other: Config, level: Level)
    ensures
        crate::config::level_named(cfg.logging.stdout_level@) == Some(level) ==> console_level(cfg)
            == level,
        crate::config::level_named(cfg.logging.file_level@) == Some(level)
            ==> Mode::Console.level_of_file(cfg) == level,
        crate::config::level_named(cfg.logging.service_level@) == Some(level)
            ==> Mode::Service.level_of_file(cfg) == level,
        cfg.logging.stdout_level@ == other.logging.stdout_level@ ==> console_level(cfg)
            == console_level(other),
        cfg.logging.file_level@ == other.logging.file_level@ ==> Mode::Console.level_of_file(cfg)
            == Mode::Console.level_of_file(other),
        cfg.logging.service_level@ == other.logging.service_level@
            ==> Mode::Service.level_of_file(cfg) == Mode::Service.level_of_file(other),
{
}

/// An absolute path is where the log file is, whatever the log directory; a relative one leads
/// to it from there.
pub proof fn law_where_the_log_file_is(configured: Seq<char>, log_dir: Seq<char>)
    ensures
        crate::paths::is_absolute(configured) ==> log_file(configured, log_dir) == configured,
        !crate::paths::is_verbatim(log_dir) && crate::paths::prefix_len(configured) == 0
            && !crate::paths::starts_at_root(configured) ==> {
            let file = log_file(configured, log_dir);
            &&& crate::text::has_prefix(file, log_dir)
            &&& file.len() >= log_dir.len() + configured.len()
            &&& file.skip(file.len() - configured.len()) == configured
        },
{
    if !crate::paths::is_verbatim(log_dir) && crate::paths::prefix_len(configured) == 0
        && !crate::paths::starts_at_root(configured) {
        crate::paths::law_a_relative_path_lands_under_its_base(log_dir, configured);
    }
}

/// The log directory of either mode is under the root that it is given, and ends in the same
/// two directories; for the console these are among the documents.
pub proof fn law_logs_are_kept_under_the_root(mode: Mode, root: Seq<char>)
    requires
        !crate::paths::is_verbatim(root),
    ensures
        ({
            let directory = mode.directory(Some(root));
            let tail = "autospot\\logs"@;
            let documents = "Documents\\autospot\\logs"@;
            &&& crate::text::has_prefix(directory, root)
            &&& directory.len() >= root.len() + tail.len()
            &&& directory.skip(directory.len() - tail.len()) == tail
            &&& mode == Mode::Console <==> directory.len() >= root.len() + documents.len()
                && directory.skip(directory.len() - documents.len()) == documents
        }),
{
    reveal_strlit("Documents\\autospot\\logs");
    reveal_strlit("autospot\\logs");
    let console = "Documents\\autospot\\logs"@;
    let service = "autospot\\logs"@;
    assert(console[0] == 'D' && console[1] == 'o');
    assert(service[0] == 'a' && service[1] == 'u');
    assert(console.skip(10) =~= service);
    crate::paths::law_a_relative_path_lands_under_its_base(root, console);
    crate::paths::law_a_relative_path_lands_under_its_base(root, service);
    let directory = mode.directory(Some(root));
    crate::paths::law_one_separator_comes_between(root, mode.subdirectory());
    if mode == Mode::Console {
        assert(directory.skip(directory.len() - service.len()) =~= directory.skip(
            directory.len() - console.len(),
        ).skip(10));
    }
}

/// The directory of the log file is never nothing: it is its parent, if it has one, and where
/// we stand otherwise.
pub proof fn law_the_log_file_has_a_directory(parent: Seq<char>)
    ensures
        parent.len() > 0 ==> directory_of(Some(parent)) == parent,
        parent.len() == 0 ==> directory_of(Some(parent)) == directory_of(None),
        directory_of(None) == "."@,
{
}

} // verus!
