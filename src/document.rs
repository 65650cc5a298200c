//! Renders a profile, a folder and a port into the lines of a build file.

use vstd::prelude::*;
use crate::profile::{FrameworkProfile, ProfileView, views};

verus! {

/// The character of a decimal digit.
pub open spec fn digit_char(d: nat) -> char {
    if d == 0 { '0' } else if d == 1 { '1' } else if d == 2 { '2' } else if d == 3 { '3' }
    else if d == 4 { '4' } else if d == 5 { '5' } else if d == 6 { '6' } else if d == 7 { '7' }
    else if d == 8 { '8' } else { '9' }
}

/// The decimal form of a number, with no leading zeros.
pub open spec fn decimal(n: nat) -> Seq<char>
    decreases n,
{
    if n < 10 {
        seq![digit_char(n)]
    } else {
        decimal(n / 10).push(digit_char(n % 10))
    }
}

fn digit_str(d: u64) -> (r: &'static str)
    requires
        d < 10,
    ensures
        r@ == seq![digit_char(d as nat)],
{
    let r = if d == 0 { "0" } else if d == 1 { "1" } else if d == 2 { "2" } else if d == 3 { "3" }
    else if d == 4 { "4" } else if d == 5 { "5" } else if d == 6 { "6" } else if d == 7 { "7" }
    else if d == 8 { "8" } else { "9" };
    proof {
        reveal_strlit("0"); reveal_strlit("1"); reveal_strlit("2"); reveal_strlit("3");
        reveal_strlit("4"); reveal_strlit("5"); reveal_strlit("6"); reveal_strlit("7");
        reveal_strlit("8"); reveal_strlit("9");
    }
    assert(r@ =~= seq![digit_char(d as nat)]);
    r
}

/// Writes a number in decimal.
pub fn decimal_string(n: u64) -> (r: String)
    ensures
        r@ == decimal(n as nat),
    decreases n,
{
    if n < 10 {
        String::from_str(digit_str(n))
    } else {
        let head = decimal_string(n / 10);
        let r = head.concat(digit_str(n % 10));
        assert(r@ =~= decimal((n / 10) as nat).push(digit_char((n % 10) as nat)));
        r
    }
}

/// A word in double quotes.
pub open spec fn quoted(w: Seq<char>) -> Seq<char> {
    "\""@ + w + "\""@
}

/// The quoted words, separated by commas.
pub open spec fn quoted_list(ws: Seq<Seq<char>>) -> Seq<char>
    decreases ws.len(),
{
    if ws.len() == 0 {
        Seq::empty()
    } else if ws.len() == 1 {
        quoted(ws[0])
    } else {
        quoted_list(ws.drop_last()) + ","@ + quoted(ws.last())
    }
}

/// The start command in exec form: `CMD ["a","b"]`.
pub open spec fn cmd_line(ws: Seq<Seq<char>>) -> Seq<char> {
    "CMD ["@ + quoted_list(ws) + "]"@
}

/// The port that the expose line names: the override verbatim, else the default.
pub open spec fn port_text(p: ProfileView, port: Option<Seq<char>>) -> Seq<char> {
    match port {
        Some(t) => t,
        None => decimal(p.default_port as nat),
    }
}

/// The line that names the exposed port.
pub open spec fn expose_line(p: ProfileView, port: Option<Seq<char>>) -> Seq<char> {
    "EXPOSE "@ + port_text(p, port)
}

/// One `RUN` line per setup command.
pub open spec fn run_lines(cmds: Seq<Seq<char>>) -> Seq<Seq<char>> {
    cmds.map_values(|c: Seq<char>| "RUN "@ + c)
}

/// The lines of the build file, in their fixed order.
pub open spec fn document(p: ProfileView, directory: Seq<char>, port: Option<Seq<char>>) -> Seq<Seq<char>> {
    seq!["FROM "@ + p.base_image, "RUN apt-get update && apt-get install -y"@]
        + run_lines(p.setup_commands)
        + seq![
            "COPY "@ + directory + " /usr/src/app/"@,
            "WORKDIR /usr/src/app/"@,
            "RUN "@ + p.dependency_install_command,
            expose_line(p, port),
            cmd_line(p.start_command),
        ]
}

/// The view of an optional string.
pub open spec fn opt_view(o: Option<String>) -> Option<Seq<char>> {
    match o {
        Some(s) => Some(s@),
        None => None,
    }
}

fn quoted_string(w: &str) -> (r: String)
    ensures
        r@ == quoted(w@),
{
    String::from_str("\"").concat(w).concat("\"")
}

/// Renders the start command in exec form.
pub fn render_cmd(ws: &Vec<String>) -> (r: String)
    ensures
        r@ == cmd_line(views(ws@)),
{
    let mut list = String::new();
    let mut i: usize = 0;
    while i < ws.len()
        invariant
            i <= ws@.len(),
            list@ == quoted_list(views(ws@.subrange(0, i as int))),
        decreases ws@.len() - i,
    {
        let ghost done = views(ws@.subrange(0, i as int));
        if i == 0 {
            list = quoted_string(ws[i].as_str());
        } else {
            list = list.concat(",").concat(quoted_string(ws[i].as_str()).as_str());
        }
        proof {
            let next = views(ws@.subrange(0, i + 1));
            assert(next =~= done.push(ws@[i as int]@));
            assert(next.drop_last() =~= done);
            assert(list@ =~= quoted_list(next));
        }
        i = i + 1;
    }
    assert(ws@.subrange(0, i as int) =~= ws@);
    String::from_str("CMD [").concat(list.as_str()).concat("]")
}

/// Renders the lines of the build file for a profile, a folder and an
/// optional port override. The folder and the port are embedded verbatim.
pub fn build_document(profile: &FrameworkProfile, directory: &str, port: &Option<String>) -> (r: Vec<String>)
    ensures
        views(r@) == document(profile@, directory@, opt_view(*port)),
{
    let mut r: Vec<String> = Vec::new();
    r.push(String::from_str("FROM ").concat(profile.base_image.as_str()));
    r.push(String::from_str("RUN apt-get update && apt-get install -y"));
    let mut i: usize = 0;
    while i < profile.setup_commands.len()
        invariant
            i <= profile.setup_commands@.len(),
            views(r@) == seq!["FROM "@ + profile.base_image@, "RUN apt-get update && apt-get install -y"@]
                + run_lines(views(profile.setup_commands@.subrange(0, i as int))),
        decreases profile.setup_commands@.len() - i,
    {
        let ghost before = r@;
        let line = String::from_str("RUN ").concat(profile.setup_commands[i].as_str());
        r.push(line);
        proof {
            let done = views(profile.setup_commands@.subrange(0, i as int));
            let next = views(profile.setup_commands@.subrange(0, i + 1));
            assert(next =~= done.push(profile.setup_commands@[i as int]@));
            assert(run_lines(next) =~= run_lines(done).push(line@));
            assert(r@ =~= before.push(line));
            assert(views(r@) =~= views(before).push(line@));
        }
        i = i + 1;
    }
    assert(profile.setup_commands@.subrange(0, i as int) =~= profile.setup_commands@);
    r.push(String::from_str("COPY ").concat(directory).concat(" /usr/src/app/"));
    r.push(String::from_str("WORKDIR /usr/src/app/"));
    r.push(String::from_str("RUN ").concat(profile.dependency_install_command.as_str()));
    let port_line = match port {
        Some(p) => String::from_str("EXPOSE ").concat(p.as_str()),
        None => String::from_str("EXPOSE ").concat(decimal_string(profile.default_port as u64).as_str()),
    };
    r.push(port_line);
    r.push(render_cmd(&profile.start_command));
    assert(views(r@) =~= document(profile@, directory@, opt_view(*port)));
    r
}

/// The lines, each ended by a newline.
pub open spec fn joined(lines: Seq<Seq<char>>) -> Seq<char>
    decreases lines.len(),
{
    if lines.len() == 0 {
        Seq::empty()
    } else {
        joined(lines.drop_last()) + lines.last() + "\n"@
    }
}

/// Joins the lines into the text of the file, each ended by a newline.
pub fn render(lines: &Vec<String>) -> (r: String)
    ensures
        r@ == joined(views(lines@)),
{
    let mut out = String::new();
    let mut i: usize = 0;
    while i < lines.len()
        invariant
            i <= lines@.len(),
            out@ == joined(views(lines@.subrange(0, i as int))),
        decreases lines@.len() - i,
    {
        let ghost done = views(lines@.subrange(0, i as int));
        out = out.concat(lines[i].as_str()).concat("\n");
        proof {
            let next = views(lines@.subrange(0, i + 1));
            assert(next =~= done.push(lines@[i as int]@));
            assert(next.drop_last() =~= done);
        }
        i = i + 1;
    }
    assert(lines@.subrange(0, i as int) =~= lines@);
    out
}

} // verus!
