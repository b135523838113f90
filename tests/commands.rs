use mac_updater::command::{bundle_path, help, hpatchz_app, kill_process, open_app, Command};

fn strings(items: &[&str]) -> Vec<String> {
    items.iter().map(|s| s.to_string()).collect()
}

fn assert_command(c: &Command, program: &str, args: &[&str]) {
    assert_eq!(c.program, program);
    assert_eq!(c.args, strings(args));
}

#[test]
fn patch_arguments_for_foo() {
    let c = hpatchz_app("/usr/local/bin/hpatchz", "/tmp/d.patch", "Foo");
    assert_command(
        &c,
        "/usr/local/bin/hpatchz",
        &["-C-all", "/Applications/Foo.app", "/tmp/d.patch", "/Applications/Foo.app", "-f"],
    );
}

#[test]
fn launch_arguments_for_foo() {
    let c = open_app("Foo");
    assert_command(&c, "open", &["-a", "Foo.app"]);
}

#[test]
fn terminate_arguments_for_foo() {
    let c = kill_process("Foo");
    assert_command(&c, "killall", &["Foo"]);
}

#[test]
fn bundle_path_of_name_with_space() {
    assert_eq!(bundle_path("My App"), "/Applications/My App.app");
}

#[test]
fn bundle_path_of_empty_name() {
    assert_eq!(bundle_path(""), "/Applications/.app");
}

#[test]
fn launch_arguments_keep_name_as_given() {
    let c = open_app("Visual Studio Code");
    assert_command(&c, "open", &["-a", "Visual Studio Code.app"]);
}

#[test]
fn patch_arguments_pass_paths_through() {
    let c = hpatchz_app("./hpatchz", "relative/delta.bin", "Bar");
    assert_command(
        &c,
        "./hpatchz",
        &["-C-all", "/Applications/Bar.app", "relative/delta.bin", "/Applications/Bar.app", "-f"],
    );
}

#[test]
fn usage_line() {
    assert_eq!(help(), "Usage: mac-updater <app-name> <delta-path> <hpatchz-path>");
}
