//! Which command line starts a terminal, and under which Wayland app id its
//! window will appear.

use vstd::prelude::*;
use vstd::string::*;
use crate::text::{base_name, base_name_of, str_eq, string_views, lemma_base_name_in_dir, lemma_base_name_plain};

verus! {

/// The app id that the terminal windows started here are given, where the
/// terminal lets its app id be chosen.
pub const QUAKE_APP_ID: &'static str = "cosmic-ext-quake-terminal";

/// A terminal process that was started, and the app id its window will have.
#[derive(Clone, Debug)]
pub struct SpawnResult {
    pub pid: u32,
    pub app_id: String,
}

/// The extra arguments that make a terminal use a known app id, and that app
/// id. Only the program's base name counts. ghostty ignores `--class` and
/// keeps its own app id (it is asked not to join a running instance); foot
/// takes `--app-id=`; every other terminal (cosmic-term, alacritty, kitty,
/// wezterm and the unknown ones) is given `--class`.
pub open spec fn class_args(command: Seq<char>) -> (Seq<Seq<char>>, Seq<char>) {
    let b = base_name(command);
    if b == "ghostty"@ {
        (seq!["--gtk-single-instance=false"@], "com.mitchellh.ghostty"@)
    } else if b == "foot"@ {
        (seq!["--app-id="@ + QUAKE_APP_ID@], QUAKE_APP_ID@)
    } else {
        (seq!["--class"@, QUAKE_APP_ID@], QUAKE_APP_ID@)
    }
}

/// The extra arguments for `command` and the app id its window will have.
pub fn get_class_args(command: &str) -> (r: (Vec<String>, String))
    ensures
        (string_views(r.0@), r.1@) == class_args(command@),
{
    let binary = base_name_of(command);
    let (args, app_id) = if str_eq(binary, "ghostty") {
        let mut v: Vec<String> = Vec::new();
        v.push("--gtk-single-instance=false".to_owned());
        (v, "com.mitchellh.ghostty".to_owned())
    } else if str_eq(binary, "foot") {
        let mut a = "--app-id=".to_owned();
        a.append(QUAKE_APP_ID);
        let mut v: Vec<String> = Vec::new();
        v.push(a);
        (v, QUAKE_APP_ID.to_owned())
    } else {
        let mut v: Vec<String> = Vec::new();
        v.push("--class".to_owned());
        v.push(QUAKE_APP_ID.to_owned());
        (v, QUAKE_APP_ID.to_owned())
    };
    assert(string_views(args@) =~= class_args(command@).0);
    (args, app_id)
}

/// The Wayland app id that the window of `command` will have.
pub fn get_app_id(command: &str) -> (r: String)
    ensures
        r@ == class_args(command@).1,
{
    get_class_args(command).1
}

/// The program to start for a terminal, its arguments, and the app id its
/// window will have.
#[derive(Clone, Debug)]
pub struct SpawnCommand {
    pub program: String,
    pub args: Vec<String>,
    pub app_id: String,
}

/// The same, with texts taken as character sequences.
pub struct SpawnCommandView {
    pub program: Seq<char>,
    pub args: Seq<Seq<char>>,
    pub app_id: Seq<char>,
}

impl View for SpawnCommand {
    type V = SpawnCommandView;

    open spec fn view(&self) -> SpawnCommandView {
        SpawnCommandView {
            program: self.program@,
            args: string_views(self.args@),
            app_id: self.app_id@,
        }
    }
}

/// How `command` with the user's `args` is started: the class arguments come
/// first, then the user's.
pub open spec fn spawn_command_spec(command: Seq<char>, args: Seq<Seq<char>>) -> SpawnCommandView {
    SpawnCommandView {
        program: command,
        args: class_args(command).0 + args,
        app_id: class_args(command).1,
    }
}

/// The command line that starts `command` with the user's `args`.
pub fn spawn_command(command: &str, args: &Vec<String>) -> (r: SpawnCommand)
    ensures
        r@ == spawn_command_spec(command@, string_views(args@)),
{
    let (mut argv, app_id) = get_class_args(command);
    let ghost class = argv@;
    let n = args.len();
    let mut i: usize = 0;
    while i < n
        invariant
            n == args@.len(),
            i <= n,
            string_views(argv@) == string_views(class) + string_views(args@.take(i as int)),
        decreases n - i,
    {
        let ghost before = argv@;
        argv.push(args[i].clone());
        proof {
            assert(args@.take(i + 1) =~= args@.take(i as int).push(args@[i as int]));
            assert(string_views(argv@) =~= string_views(before).push(args@[i as int]@));
            assert(string_views(args@.take(i + 1)) =~= string_views(args@.take(i as int)).push(
                args@[i as int]@,
            ));
        }
        i = i + 1;
    }
    assert(args@.take(n as int) =~= args@);
    SpawnCommand { program: command.to_owned(), args: argv, app_id }
}

/// Only the base name of the program counts: the same terminal found in any
/// directory gets the same arguments and app id.
pub proof fn lemma_class_args_ignore_dir(dir: Seq<char>, name: Seq<char>)
    requires
        forall|i: int| 0 <= i < name.len() ==> #[trigger] name[i] != '/',
    ensures
        class_args(dir + seq!['/'] + name) == class_args(name),
{
    lemma_base_name_in_dir(dir, name);
    lemma_base_name_plain(name);
}

/// The app id is this application's own for every terminal but ghostty,
/// which keeps its own; foot is told the app id through one `--app-id=`
/// argument; the other terminals but ghostty through `--class` and the app
/// id; ghostty is given one argument, and not the app id.
pub proof fn lemma_class_args_laws(command: Seq<char>)
    ensures
        base_name(command) != "ghostty"@ ==> class_args(command).1 == QUAKE_APP_ID@,
        base_name(command) == "ghostty"@ ==> class_args(command).1 == "com.mitchellh.ghostty"@
            && class_args(command).0.len() == 1 && class_args(command).0[0] != QUAKE_APP_ID@,
        base_name(command) == "foot"@ ==> class_args(command).0 == seq![
            "--app-id="@ + class_args(command).1,
        ],
        base_name(command) != "ghostty"@ && base_name(command) != "foot"@ ==> class_args(
            command,
        ).0 == seq!["--class"@, class_args(command).1],
{
    reveal_strlit("ghostty");
    reveal_strlit("foot");
    reveal_strlit("--gtk-single-instance=false");
    reveal_strlit("cosmic-ext-quake-terminal");
    assert("ghostty"@ != "foot"@) by {
        assert("ghostty"@.len() != "foot"@.len());
    }
    assert("--gtk-single-instance=false"@ != QUAKE_APP_ID@) by {
        assert("--gtk-single-instance=false"@[0] != QUAKE_APP_ID@[0]);
    }
}

/// The terminal is started with exactly the class arguments followed by
/// all of the user's arguments, in order, under the given program name.
pub proof fn lemma_spawn_keeps_user_args(command: Seq<char>, args: Seq<Seq<char>>)
    ensures
        ({
            let c = spawn_command_spec(command, args);
            let k = class_args(command).0.len();
            &&& c.program == command
            &&& c.args.len() == k + args.len()
            &&& c.args.take(k as int) == class_args(command).0
            &&& c.args.skip(k as int) == args
            &&& c.app_id == class_args(command).1
        }),
{
    let c = spawn_command_spec(command, args);
    let k = class_args(command).0.len();
    assert(c.args.take(k as int) =~= class_args(command).0);
    assert(c.args.skip(k as int) =~= args);
}

} // verus!
