//! The external commands that the updater runs, built as plain values.
use vstd::prelude::*;

verus! {

/// An external program together with its argument list.
pub struct Command {
    pub program: String,
    pub args: Vec<String>,
}

/// What a `Command` stands for: the program's name or path and its arguments.
pub struct CommandView {
    pub program: Seq<char>,
    pub args: Seq<Seq<char>>,
}

/// The character sequences held by a list of strings.
pub open spec fn string_views(v: Seq<String>) -> Seq<Seq<char>> {
    v.map_values(|s: String| s@)
}

impl View for Command {
    type V = CommandView;

    open spec fn view(&self) -> CommandView {
        CommandView { program: self.program@, args: string_views(self.args@) }
    }
}

/// Where the bundle of an installed application lives.
pub open spec fn bundle_path_of(app_name: Seq<char>) -> Seq<char> {
    "/Applications/"@ + app_name + ".app"@
}

/// Terminates every running process with the given name.
pub open spec fn kill_command(app_name: Seq<char>) -> CommandView {
    CommandView { program: "killall"@, args: seq![app_name] }
}

/// Launches an application by its bundle name.
pub open spec fn open_command(app_name: Seq<char>) -> CommandView {
    CommandView { program: "open"@, args: seq!["-a"@, app_name + ".app"@] }
}

/// Applies a delta to the whole bundle directory, in place, overwriting it.
pub open spec fn patch_command(
    hpatchz_path: Seq<char>,
    delta_path: Seq<char>,
    app_name: Seq<char>,
) -> CommandView {
    CommandView {
        program: hpatchz_path,
        args: seq![
            "-C-all"@,
            bundle_path_of(app_name),
            delta_path,
            bundle_path_of(app_name),
            "-f"@,
        ],
    }
}

/// The one line shown when the arguments do not name an update.
pub open spec fn usage_text() -> Seq<char> {
    "Usage: mac-updater <app-name> <delta-path> <hpatchz-path>"@
}

/// The path of the installed bundle of `app_name`.
pub fn bundle_path(app_name: &str) -> (r: String)
    ensures
        r@ == bundle_path_of(app_name@),
{
    let mut path = String::from_str("/Applications/");
    path.append(app_name);
    path.append(".app");
    path
}

/// The command that terminates the running application `name`.
pub fn kill_process(name: &str) -> (r: Command)
    ensures
        r@ == kill_command(name@),
{
    let mut args: Vec<String> = Vec::new();
    args.push(String::from_str(name));
    let r = Command { program: String::from_str("killall"), args };
    assert(r@.args =~= seq![name@]);
    r
}

/// The command that launches the application `name`.
pub fn open_app(name: &str) -> (r: Command)
    ensures
        r@ == open_command(name@),
{
    let mut full_app_name = String::from_str(name);
    full_app_name.append(".app");
    let mut args: Vec<String> = Vec::new();
    args.push(String::from_str("-a"));
    args.push(full_app_name);
    let r = Command { program: String::from_str("open"), args };
    assert(r@.args =~= seq!["-a"@, name@ + ".app"@]);
    r
}

/// The command that patches the bundle of `app_name` in place with the delta
/// at `delta_path`, by the patcher at `hpatchz_path`.
pub fn hpatchz_app(hpatchz_path: &str, delta_path: &str, app_name: &str) -> (r: Command)
    ensures
        r@ == patch_command(hpatchz_path@, delta_path@, app_name@),
{
    let app_path = bundle_path(app_name);
    let mut args: Vec<String> = Vec::new();
    args.push(String::from_str("-C-all"));
    args.push(app_path.clone());
    args.push(String::from_str(delta_path));
    args.push(app_path);
    args.push(String::from_str("-f"));
    let r = Command { program: String::from_str(hpatchz_path), args };
    assert(r@.args =~= patch_command(hpatchz_path@, delta_path@, app_name@).args);
    r
}

/// The usage line.
pub fn help() -> (r: String)
    ensures
        r@ == usage_text(),
{
    String::from_str("Usage: mac-updater <app-name> <delta-path> <hpatchz-path>")
}

} // verus!
