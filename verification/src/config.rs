//! The configuration data model: profiles of keybindings, each active while
//! the invoked command matches one of its registered wildcard patterns. The
//! core receives this structure ready-made at construction and never mutates
//! it; reading and writing the on-disk form is the storage shim's job.

use vstd::prelude::*;
use vstd::string::StringExecFns;

verus! {

/// One key mapped to a command template, a confirmation flag and an optional
/// capture regex.
#[derive(Debug, PartialEq, Clone)]
pub struct KeyBinding {
    pub key: char,
    pub command: String,
    pub confirm: bool,
    pub regex: Option<String>,
}

impl Default for KeyBinding {
    fn default() -> (r: KeyBinding)
        ensures
            r.key == ' ',
            r.command@ == Seq::<char>::empty(),
            !r.confirm,
            r.regex is None,
    {
        KeyBinding { key: ' ', command: String::new(), confirm: false, regex: None }
    }
}

/// The optional command whose output is rendered beside the selected row.
#[derive(Debug, PartialEq, Clone)]
pub struct DisplayCommand {
    pub command: String,
    pub regex: Option<String>,
}

/// The capability shared by `KeyBinding` and `DisplayCommand`: a command
/// template with an optional capture regex.
pub trait Command {
    spec fn spec_command(&self) -> Seq<char>;

    spec fn spec_regex(&self) -> Option<Seq<char>>;

    fn command(&self) -> (r: &str)
        ensures
            r@ == self.spec_command(),
    ;

    fn regex(&self) -> (r: Option<&str>)
        ensures
            r is Some <==> self.spec_regex() is Some,
            r matches Some(s) ==> self.spec_regex() == Some(s@),
    ;
}

impl Command for KeyBinding {
    open spec fn spec_command(&self) -> Seq<char> {
        self.command@
    }

    open spec fn spec_regex(&self) -> Option<Seq<char>> {
        match self.regex {
            Some(s) => Some(s@),
            None => None,
        }
    }

    fn command(&self) -> (r: &str) {
        self.command.as_str()
    }

    fn regex(&self) -> (r: Option<&str>) {
        match &self.regex {
            Some(s) => Some(s.as_str()),
            None => None,
        }
    }
}

impl Command for DisplayCommand {
    open spec fn spec_command(&self) -> Seq<char> {
        self.command@
    }

    open spec fn spec_regex(&self) -> Option<Seq<char>> {
        match self.regex {
            Some(s) => Some(s@),
            None => None,
        }
    }

    fn command(&self) -> (r: &str) {
        self.command.as_str()
    }

    fn regex(&self) -> (r: Option<&str>) {
        match &self.regex {
            Some(s) => Some(s.as_str()),
            None => None,
        }
    }
}

/// A named keybinding set with its defaults. The refresh frequency is kept in
/// whole milliseconds; zero or absent disables periodic refresh.
pub struct Profile {
    pub name: String,
    pub registered_commands: Vec<String>,
    pub key_bindings: Vec<KeyBinding>,
    pub lines_to_skip: usize,
    pub refresh_frequency_ms: Option<u64>,
    pub display_command: Option<DisplayCommand>,
}

/// The full configuration: profiles in declared order; the first whose
/// patterns match the invoked command wins.
pub struct Config {
    pub profiles: Vec<Profile>,
}

/// Serialisation helper: lets the stored form omit a zero value.
pub trait IsZero {
    spec fn zero_spec(&self) -> bool;

    fn is_zero(&self) -> (r: bool)
        ensures
            r == self.zero_spec(),
    ;
}

impl IsZero for usize {
    open spec fn zero_spec(&self) -> bool {
        *self == 0
    }

    fn is_zero(&self) -> (r: bool) {
        *self == 0
    }
}

/// Serialisation helper: lets the stored form omit a false flag.
pub trait IsFalse {
    spec fn false_spec(&self) -> bool;

    fn is_false(&self) -> (r: bool)
        ensures
            r == self.false_spec(),
    ;
}

impl IsFalse for bool {
    open spec fn false_spec(&self) -> bool {
        !*self
    }

    fn is_false(&self) -> (r: bool) {
        !*self
    }
}

/// Does any of the profile's registered wildcard patterns match the invoked
/// command?
pub open spec fn profile_matches_command(p: Profile, command: Seq<char>) -> bool {
    exists|j: int|
        0 <= j < p.registered_commands@.len() && #[trigger] crate::profile_matching::pattern_matches(
            p.registered_commands@[j]@,
            command,
        )
}

fn profile_has_match(p: &Profile, command: &str) -> (r: bool)
    ensures
        r == profile_matches_command(*p, command@),
{
    let mut j: usize = 0;
    while j < p.registered_commands.len()
        invariant
            j <= p.registered_commands@.len(),
            forall|t: int|
                0 <= t < j ==> !crate::profile_matching::pattern_matches(
                    #[trigger] p.registered_commands@[t]@,
                    command@,
                ),
        decreases p.registered_commands@.len() - j,
    {
        if crate::profile_matching::command_matches(command, p.registered_commands[j].as_str()) {
            return true;
        }
        j += 1;
    }
    false
}

fn binding(key: char, command: &str, confirm: bool, regex: Option<&str>) -> (r: KeyBinding)
    ensures
        r.key == key,
        r.command@ == command@,
        r.confirm == confirm,
        match (r.regex, regex) {
            (Some(s), Some(q)) => s@ == q@,
            (None, None) => true,
            _ => false,
        },
{
    KeyBinding {
        key,
        command: String::from_str(command),
        confirm,
        regex: match regex {
            Some(s) => Some(String::from_str(s)),
            None => None,
        },
    }
}

impl Config {
    /// The index of the first profile, in declared order, with a registered
    /// pattern matching the invoked command; `None` is the valid "no
    /// profile" outcome.
    pub fn find_profile_index(&self, command: &str) -> (r: Option<usize>)
        ensures
            match r {
                Some(i) => {
                    &&& i < self.profiles@.len()
                    &&& profile_matches_command(self.profiles@[i as int], command@)
                    &&& forall|t: int|
                        0 <= t < i ==> !profile_matches_command(
                            #[trigger] self.profiles@[t],
                            command@,
                        )
                },
                None => forall|t: int|
                    0 <= t < self.profiles@.len() ==> !profile_matches_command(
                        #[trigger] self.profiles@[t],
                        command@,
                    ),
            },
    {
        let mut i: usize = 0;
        while i < self.profiles.len()
            invariant
                i <= self.profiles@.len(),
                forall|t: int|
                    0 <= t < i ==> !profile_matches_command(#[trigger] self.profiles@[t], command@),
            decreases self.profiles@.len() - i,
        {
            if profile_has_match(&self.profiles[i], command) {
                return Some(i);
            }
            i += 1;
        }
        None
    }

    /// The first profile whose registered patterns match the invoked
    /// command, in declared order.
    pub fn find_profile_for_command(&self, command: &str) -> (r: Option<&Profile>)
        ensures
            match r {
                Some(p) => exists|i: int|
                    {
                        &&& 0 <= i < self.profiles@.len()
                        &&& *p == self.profiles@[i]
                        &&& #[trigger] profile_matches_command(self.profiles@[i], command@)
                        &&& forall|t: int|
                            0 <= t < i ==> !profile_matches_command(
                                #[trigger] self.profiles@[t],
                                command@,
                            )
                    },
                None => forall|t: int|
                    0 <= t < self.profiles@.len() ==> !profile_matches_command(
                        #[trigger] self.profiles@[t],
                        command@,
                    ),
            },
    {
        match self.find_profile_index(command) {
            Some(i) => Some(&self.profiles[i]),
            None => None,
        }
    }

    /// The built-in starter configuration, written to disk on first run:
    /// profiles for the everyday listing commands.
    pub fn new() -> (r: Config)
        ensures
            r.profiles@.len() == 8,
            r.profiles@[0].name@ == "ls"@,
            r.profiles@[1].name@ == "ls -l"@,
            r.profiles@[2].name@ == "git status --short"@,
            r.profiles@[3].name@ == "git status"@,
            r.profiles@[4].name@ == "docker ps"@,
            r.profiles@[5].name@ == "git branch"@,
            r.profiles@[6].name@ == "git log"@,
            r.profiles@[7].name@ == "lsof -iTCP | grep LISTEN"@,
            forall|i: int|
                0 <= i < 8 ==> (#[trigger] r.profiles@[i]).refresh_frequency_ms is None
                    && r.profiles@[i].display_command is None,
            r.profiles@[1].lines_to_skip == 1,
            forall|i: int| 0 <= i < 8 && i != 1 ==> (#[trigger] r.profiles@[i]).lines_to_skip == 0,
            r.profiles@[0].key_bindings@.len() == 3,
            r.profiles@[0].key_bindings@[0].key == 'd',
            r.profiles@[0].key_bindings@[0].command@ == "rm -rf $0"@,
            r.profiles@[0].key_bindings@[0].confirm,
            r.profiles@[3].key_bindings@[1].key == 'a',
            r.profiles@[3].key_bindings@[1].regex matches Some(s) && s@ == ".*:\\s+([^\\s]+)"@,
    {
        let open_cmd = crate::os_commands::open_command("$0");
        let mut profiles: Vec<Profile> = Vec::new();

        let mut registered: Vec<String> = Vec::new();
        registered.push(String::from_str("ls -1"));
        registered.push(String::from_str("ls -a"));
        registered.push(String::from_str("ls"));
        let mut bindings: Vec<KeyBinding> = Vec::new();
        bindings.push(binding('d', "rm -rf $0", true, None));
        bindings.push(
            KeyBinding { key: 'o', command: open_cmd, confirm: false, regex: None },
        );
        bindings.push(binding('u', "cd $0", false, None));
        profiles.push(
            Profile {
                name: String::from_str("ls"),
                registered_commands: registered,
                key_bindings: bindings,
                lines_to_skip: 0,
                refresh_frequency_ms: None,
                display_command: None,
            },
        );

        let mut registered: Vec<String> = Vec::new();
        registered.push(String::from_str("ls -l"));
        let mut bindings: Vec<KeyBinding> = Vec::new();
        bindings.push(binding('d', "rm -rf $8", true, None));
        bindings.push(binding('o', "open $8", false, None));
        bindings.push(binding('u', "cd $8", false, None));
        profiles.push(
            Profile {
                name: String::from_str("ls -l"),
                registered_commands: registered,
                key_bindings: bindings,
                lines_to_skip: 1,
                refresh_frequency_ms: None,
                display_command: None,
            },
        );

        let mut registered: Vec<String> = Vec::new();
        registered.push(String::from_str("git status --short"));
        let mut bindings: Vec<KeyBinding> = Vec::new();
        bindings.push(binding('A', "git add $1", false, None));
        bindings.push(binding('a', "git reset $1", false, None));
        bindings.push(binding('d', "rm -rf $1", true, None));
        profiles.push(
            Profile {
                name: String::from_str("git status --short"),
                registered_commands: registered,
                key_bindings: bindings,
                lines_to_skip: 0,
                refresh_frequency_ms: None,
                display_command: None,
            },
        );

        let mut registered: Vec<String> = Vec::new();
        registered.push(String::from_str("git status"));
        let mut bindings: Vec<KeyBinding> = Vec::new();
        bindings.push(binding('A', "git add $0", false, None));
        bindings.push(binding('a', "git reset $1", true, Some(".*:\\s+([^\\s]+)")));
        bindings.push(binding('d', "rm -rf $1", true, None));
        profiles.push(
            Profile {
                name: String::from_str("git status"),
                registered_commands: registered,
                key_bindings: bindings,
                lines_to_skip: 0,
                refresh_frequency_ms: None,
                display_command: None,
            },
        );

        let mut registered: Vec<String> = Vec::new();
        registered.push(String::from_str("docker ps"));
        let mut bindings: Vec<KeyBinding> = Vec::new();
        bindings.push(binding('s', "docker stop $0", true, None));
        bindings.push(binding('r', "docker restart $0", false, None));
        bindings.push(binding('d', "docker kill $0", true, None));
        profiles.push(
            Profile {
                name: String::from_str("docker ps"),
                registered_commands: registered,
                key_bindings: bindings,
                lines_to_skip: 0,
                refresh_frequency_ms: None,
                display_command: None,
            },
        );

        let mut registered: Vec<String> = Vec::new();
        registered.push(String::from_str("git branch"));
        let mut bindings: Vec<KeyBinding> = Vec::new();
        bindings.push(binding('c', "git checkout $1", false, None));
        profiles.push(
            Profile {
                name: String::from_str("git branch"),
                registered_commands: registered,
                key_bindings: bindings,
                lines_to_skip: 0,
                refresh_frequency_ms: None,
                display_command: None,
            },
        );

        let mut registered: Vec<String> = Vec::new();
        registered.push(String::from_str("git log --oneline"));
        let mut bindings: Vec<KeyBinding> = Vec::new();
        bindings.push(binding('c', "git checkout $0", false, None));
        profiles.push(
            Profile {
                name: String::from_str("git log"),
                registered_commands: registered,
                key_bindings: bindings,
                lines_to_skip: 0,
                refresh_frequency_ms: None,
                display_command: None,
            },
        );

        let mut registered: Vec<String> = Vec::new();
        registered.push(String::from_str("lsof -iTCP | grep LISTEN"));
        registered.push(String::from_str("lsof -iTCP"));
        let mut bindings: Vec<KeyBinding> = Vec::new();
        bindings.push(binding('d', "kill -9 $1", true, None));
        profiles.push(
            Profile {
                name: String::from_str("lsof -iTCP | grep LISTEN"),
                registered_commands: registered,
                key_bindings: bindings,
                lines_to_skip: 0,
                refresh_frequency_ms: None,
                display_command: None,
            },
        );

        Config { profiles }
    }
}

} // verus!
