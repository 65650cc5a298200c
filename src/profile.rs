//! The table of supported runtimes and the profile of each.

use vstd::prelude::*;
use crate::text::str_eq;

verus! {

/// A runtime or framework that a build file can be made for.
#[derive(Clone, Copy, Debug, PartialEq, Eq, Structural)]
pub enum Framework {
    Node,
    Python,
    Dotnet,
    Ruby,
    Vue,
    React,
    Angular,
}

/// The keyword that selects a framework, if any: an exact, case-sensitive match.
pub open spec fn framework_of(k: Seq<char>) -> Option<Framework> {
    if k == "node"@ {
        Some(Framework::Node)
    } else if k == "python"@ {
        Some(Framework::Python)
    } else if k == "dotnet"@ {
        Some(Framework::Dotnet)
    } else if k == "ruby"@ {
        Some(Framework::Ruby)
    } else if k == "vue"@ {
        Some(Framework::Vue)
    } else if k == "react"@ {
        Some(Framework::React)
    } else if k == "angular"@ {
        Some(Framework::Angular)
    } else {
        None
    }
}

impl Framework {
    /// Looks a keyword up in the table of supported frameworks.
    pub fn from_keyword(k: &str) -> (r: Option<Framework>)
        ensures
            r == framework_of(k@),
    {
        if str_eq(k, "node") {
            Some(Framework::Node)
        } else if str_eq(k, "python") {
            Some(Framework::Python)
        } else if str_eq(k, "dotnet") {
            Some(Framework::Dotnet)
        } else if str_eq(k, "ruby") {
            Some(Framework::Ruby)
        } else if str_eq(k, "vue") {
            Some(Framework::Vue)
        } else if str_eq(k, "react") {
            Some(Framework::React)
        } else if str_eq(k, "angular") {
            Some(Framework::Angular)
        } else {
            None
        }
    }
}


/// What a profile holds, as plain sequences.
pub struct ProfileView {
    pub base_image: Seq<char>,
    pub setup_commands: Seq<Seq<char>>,
    pub dependency_install_command: Seq<char>,
    pub default_port: u16,
    pub start_command: Seq<Seq<char>>,
}

/// The fixed template data of one framework.
#[derive(Debug)]
pub struct FrameworkProfile {
    pub base_image: String,
    pub setup_commands: Vec<String>,
    pub dependency_install_command: String,
    pub default_port: u16,
    pub start_command: Vec<String>,
}

/// The views of a sequence of strings.
pub open spec fn views(v: Seq<String>) -> Seq<Seq<char>> {
    v.map_values(|s: String| s@)
}

impl View for FrameworkProfile {
    type V = ProfileView;

    open spec fn view(&self) -> ProfileView {
        ProfileView {
            base_image: self.base_image@,
            setup_commands: views(self.setup_commands@),
            dependency_install_command: self.dependency_install_command@,
            default_port: self.default_port,
            start_command: views(self.start_command@),
        }
    }
}

/// The port that every profile exposes unless told otherwise.
pub const DEFAULT_PORT: u16 = 3000;

/// The row of the table for a framework. Every node-based framework shares
/// one profile but for its start command.
pub open spec fn profile_row(f: Framework) -> ProfileView {
    let node_tools = seq!["apt-get install -y npm"@, "apt-get install -y yarn"@];
    match f {
        Framework::Node => ProfileView {
            base_image: "node:latest"@,
            setup_commands: seq![
                "apt-get install -y nodejs"@,
                "apt-get install -y npm"@,
                "apt-get install -y yarn"@,
            ],
            dependency_install_command: "npm install"@,
            default_port: DEFAULT_PORT,
            start_command: seq!["npm"@, "start"@],
        },
        Framework::Python => ProfileView {
            base_image: "python:latest"@,
            setup_commands: seq!["apt-get install -y python3"@, "apt-get install -y python3-pip"@],
            dependency_install_command: "pip3 install -r requirements.txt"@,
            default_port: DEFAULT_PORT,
            start_command: seq!["python3"@, "app.py"@],
        },
        Framework::Dotnet => ProfileView {
            base_image: "mcr.microsoft.com/dotnet/core/sdk:latest"@,
            setup_commands: seq!["apt-get install -y dotnet"@],
            dependency_install_command: "dotnet restore"@,
            default_port: DEFAULT_PORT,
            start_command: seq!["dotnet"@, "run"@],
        },
        Framework::Ruby => ProfileView {
            base_image: "ruby:latest"@,
            setup_commands: seq!["apt-get install -y ruby"@],
            dependency_install_command: "bundle install"@,
            default_port: DEFAULT_PORT,
            start_command: seq!["ruby"@, "app.rb"@],
        },
        Framework::Vue => ProfileView {
            base_image: "node:latest"@,
            setup_commands: node_tools,
            dependency_install_command: "npm install"@,
            default_port: DEFAULT_PORT,
            start_command: seq!["npm"@, "run"@, "serve"@],
        },
        Framework::React | Framework::Angular => ProfileView {
            base_image: "node:latest"@,
            setup_commands: node_tools,
            dependency_install_command: "npm install"@,
            default_port: DEFAULT_PORT,
            start_command: seq!["npm"@, "run"@, "start"@],
        },
    }
}

/// Builds a vector of owned strings from string literals.
fn owned(items: &[&str]) -> (r: Vec<String>)
    ensures
        views(r@) == items@.map_values(|s: &str| s@),
{
    let mut r: Vec<String> = Vec::new();
    let mut i: usize = 0;
    while i < items.len()
        invariant
            i <= items@.len(),
            views(r@) == items@.subrange(0, i as int).map_values(|s: &str| s@),
        decreases items@.len() - i,
    {
        let ghost before = r@;
        let t = String::from_str(items[i]);
        r.push(t);
        proof {
            let done = items@.subrange(0, i as int);
            let next = items@.subrange(0, i + 1);
            assert(next =~= done.push(items@[i as int]));
            assert(r@ =~= before.push(t));
            assert(views(r@) =~= views(before).push(t@));
            assert(next.map_values(|s: &str| s@) =~= done.map_values(|s: &str| s@).push(items@[i as int]@));
        }
        i = i + 1;
    }
    assert(items@.subrange(0, i as int) =~= items@);
    r
}

impl Framework {
    /// The profile of this framework, as the table gives it.
    pub fn profile(self) -> (r: FrameworkProfile)
        ensures
            r@ == profile_row(self),
    {
        let node_tools: [&str; 2] = ["apt-get install -y npm", "apt-get install -y yarn"];
        let (base, setup, dep, start): (&str, Vec<String>, &str, Vec<String>) = match self {
            Framework::Node => (
                "node:latest",
                owned(&["apt-get install -y nodejs", "apt-get install -y npm", "apt-get install -y yarn"]),
                "npm install",
                owned(&["npm", "start"]),
            ),
            Framework::Python => (
                "python:latest",
                owned(&["apt-get install -y python3", "apt-get install -y python3-pip"]),
                "pip3 install -r requirements.txt",
                owned(&["python3", "app.py"]),
            ),
            Framework::Dotnet => (
                "mcr.microsoft.com/dotnet/core/sdk:latest",
                owned(&["apt-get install -y dotnet"]),
                "dotnet restore",
                owned(&["dotnet", "run"]),
            ),
            Framework::Ruby => (
                "ruby:latest",
                owned(&["apt-get install -y ruby"]),
                "bundle install",
                owned(&["ruby", "app.rb"]),
            ),
            Framework::Vue => (
                "node:latest",
                owned(&node_tools),
                "npm install",
                owned(&["npm", "run", "serve"]),
            ),
            Framework::React | Framework::Angular => (
                "node:latest",
                owned(&node_tools),
                "npm install",
                owned(&["npm", "run", "start"]),
            ),
        };
        let r = FrameworkProfile {
            base_image: String::from_str(base),
            setup_commands: setup,
            dependency_install_command: String::from_str(dep),
            default_port: DEFAULT_PORT,
            start_command: start,
        };
        assert(r@.setup_commands =~= profile_row(self).setup_commands);
        assert(r@.start_command =~= profile_row(self).start_command);
        r
    }
}

/// Looks a keyword up and returns its profile, or `None` for an unknown keyword.
pub fn resolve_profile(keyword: &str) -> (r: Option<FrameworkProfile>)
    ensures
        match framework_of(keyword@) {
            Some(f) => r is Some && r->0@ == profile_row(f),
            None => r is None,
        },
{
    match Framework::from_keyword(keyword) {
        Some(f) => Some(f.profile()),
        None => None,
    }
}

} // verus!
