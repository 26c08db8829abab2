//! Immutable server configuration and the strings derived from it.

use vstd::prelude::*;
use vstd::string::*;
use crate::text::{decimal, join, push_decimal, join_path};

verus! {

/// File name of the server executable.
pub const SERVER_BINARY: &'static str = "tunnelforge-server";
/// File that marks a directory holding the server's source.
pub const BUILD_DESCRIPTOR: &'static str = "go.mod";
/// Source file the build starts from, relative to the server directory.
pub const BUILD_ENTRYPOINT: &'static str = "cmd/server/main.go";

/// The content of a sequence of strings.
pub open spec fn strings(v: Seq<String>) -> Seq<Seq<char>> {
    v.map_values(|s: String| s@)
}

/// A copy of `v`, string for string.
pub fn copy_strings(v: &Vec<String>) -> (r: Vec<String>)
    ensures
        strings(r@) == strings(v@),
{
    let mut out: Vec<String> = Vec::new();
    let mut i: usize = 0;
    while i < v.len()
        invariant
            i <= v@.len(),
            strings(out@) == strings(v@).subrange(0, i as int),
        decreases v@.len() - i,
    {
        let ghost before = out@;
        out.push(v[i].clone());
        assert(strings(out@) =~= strings(before).push(v@[i as int]@));
        i = i + 1;
        assert(strings(out@) =~= strings(v@).subrange(0, i as int));
    }
    assert(strings(v@).subrange(0, i as int) =~= strings(v@));
    out
}

/// What a configuration holds.
pub struct ConfigView {
    pub host: Seq<char>,
    pub port: u16,
    pub candidates: Seq<Seq<char>>,
    pub binary_name: Seq<char>,
    pub descriptor_name: Seq<char>,
    pub entrypoint: Seq<char>,
    pub build_command: Seq<Seq<char>>,
}

/// `http://host:port`.
pub open spec fn url_of(host: Seq<char>, port: u16) -> Seq<char> {
    "http://"@ + host + seq![':'] + decimal(port as nat)
}

/// `host:port`.
pub open spec fn address_of(host: Seq<char>, port: u16) -> Seq<char> {
    host + seq![':'] + decimal(port as nat)
}

/// Where the server runs from: host and port, the ordered candidate
/// directories, the executable's file name, the build descriptor, the build
/// entrypoint and the build command. Set once at startup.
pub struct ServerConfig {
    host: String,
    port: u16,
    candidates: Vec<String>,
    binary_name: String,
    descriptor_name: String,
    entrypoint: String,
    build_command: Vec<String>,
}

impl View for ServerConfig {
    type V = ConfigView;

    closed spec fn view(&self) -> ConfigView {
        ConfigView {
            host: self.host@,
            port: self.port,
            candidates: strings(self.candidates@),
            binary_name: self.binary_name@,
            descriptor_name: self.descriptor_name@,
            entrypoint: self.entrypoint@,
            build_command: strings(self.build_command@),
        }
    }
}

impl ServerConfig {
    /// A configuration; `None` when `port` is 0, which no server can listen on.
    pub fn new(
        host: String,
        port: u16,
        candidates: Vec<String>,
        binary_name: String,
        descriptor_name: String,
        entrypoint: String,
        build_command: Vec<String>,
    ) -> (r: Option<ServerConfig>)
        ensures
            port == 0 <==> r is None,
            r matches Some(c) ==> c@ == (ConfigView {
                host: host@,
                port,
                candidates: strings(candidates@),
                binary_name: binary_name@,
                descriptor_name: descriptor_name@,
                entrypoint: entrypoint@,
                build_command: strings(build_command@),
            }),
    {
        if port == 0 {
            None
        } else {
            Some(ServerConfig {
                host,
                port,
                candidates,
                binary_name,
                descriptor_name,
                entrypoint,
                build_command,
            })
        }
    }

    /// The TunnelForge Go server: executable `tunnelforge-server`, descriptor
    /// `go.mod`, built with `go build -o tunnelforge-server cmd/server/main.go`.
    /// `None` when `port` is 0.
    pub fn tunnelforge(host: String, port: u16, candidates: Vec<String>) -> (r: Option<ServerConfig>)
        ensures
            port == 0 <==> r is None,
            r matches Some(c) ==> {
                &&& c@.host == host@
                &&& c@.port == port
                &&& c@.candidates == strings(candidates@)
                &&& c@.binary_name == SERVER_BINARY@
                &&& c@.descriptor_name == BUILD_DESCRIPTOR@
                &&& c@.entrypoint == BUILD_ENTRYPOINT@
                &&& c@.build_command == seq!["go"@, "build"@, "-o"@, SERVER_BINARY@, BUILD_ENTRYPOINT@]
            },
    {
        let mut command: Vec<String> = Vec::new();
        command.push(String::from_str("go"));
        command.push(String::from_str("build"));
        command.push(String::from_str("-o"));
        command.push(String::from_str(SERVER_BINARY));
        command.push(String::from_str(BUILD_ENTRYPOINT));
        assert(strings(command@) =~= seq!["go"@, "build"@, "-o"@, SERVER_BINARY@, BUILD_ENTRYPOINT@]);
        ServerConfig::new(
            host,
            port,
            candidates,
            String::from_str(SERVER_BINARY),
            String::from_str(BUILD_DESCRIPTOR),
            String::from_str(BUILD_ENTRYPOINT),
            command,
        )
    }

    /// The configured host.
    pub fn host(&self) -> (r: &str)
        ensures
            r@ == self@.host,
    {
        self.host.as_str()
    }

    /// The configured port.
    pub fn port(&self) -> (r: u16)
        ensures
            r == self@.port,
    {
        self.port
    }

    /// Number of candidate directories.
    pub fn candidate_count(&self) -> (r: usize)
        ensures
            r == self@.candidates.len(),
    {
        self.candidates.len()
    }

    /// The candidate directory at `index`.
    pub fn candidate(&self, index: usize) -> (r: &str)
        requires
            index < self@.candidates.len(),
        ensures
            r@ == self@.candidates[index as int],
    {
        self.candidates[index].as_str()
    }

    /// The candidate directories, in order.
    pub fn candidates(&self) -> (r: Vec<String>)
        ensures
            strings(r@) == self@.candidates,
    {
        copy_strings(&self.candidates)
    }

    /// `http://{host}:{port}`; no I/O, never fails.
    pub fn url(&self) -> (r: String)
        ensures
            r@ == url_of(self@.host, self@.port),
    {
        let mut out = String::from_str("http://");
        out.append(self.host.as_str());
        out.append(":");
        push_decimal(&mut out, self.port as u64);
        proof {
            reveal_strlit(":");
        }
        assert(out@ =~= url_of(self@.host, self@.port));
        out
    }

    /// `{host}:{port}`, the address the liveness probe connects to.
    pub fn address(&self) -> (r: String)
        ensures
            r@ == address_of(self@.host, self@.port),
    {
        let mut out = String::from_str(self.host.as_str());
        out.append(":");
        push_decimal(&mut out, self.port as u64);
        proof {
            reveal_strlit(":");
        }
        assert(out@ =~= address_of(self@.host, self@.port));
        out
    }

    /// The executable's path inside the candidate directory at `index`.
    pub fn binary_path(&self, index: usize) -> (r: String)
        requires
            index < self@.candidates.len(),
        ensures
            r@ == join(self@.candidates[index as int], self@.binary_name),
    {
        join_path(self.candidates[index].as_str(), self.binary_name.as_str())
    }

    /// The build descriptor's path inside the candidate directory at `index`.
    pub fn descriptor_path(&self, index: usize) -> (r: String)
        requires
            index < self@.candidates.len(),
        ensures
            r@ == join(self@.candidates[index as int], self@.descriptor_name),
    {
        join_path(self.candidates[index].as_str(), self.descriptor_name.as_str())
    }

    /// The build entrypoint's path inside the candidate directory at `index`.
    pub fn entrypoint_path(&self, index: usize) -> (r: String)
        requires
            index < self@.candidates.len(),
        ensures
            r@ == join(self@.candidates[index as int], self@.entrypoint),
    {
        join_path(self.candidates[index].as_str(), self.entrypoint.as_str())
    }

    /// The program to run, relative to the server directory: `./{binary}`.
    pub fn program(&self) -> (r: String)
        ensures
            r@ == "./"@ + self@.binary_name,
    {
        let mut out = String::from_str("./");
        out.append(self.binary_name.as_str());
        out
    }

    /// The build command, program first.
    pub fn build_command(&self) -> (r: Vec<String>)
        ensures
            strings(r@) == self@.build_command,
    {
        copy_strings(&self.build_command)
    }

    /// The environment the server is spawned with: `PORT` and `HOST`.
    pub fn spawn_environment(&self) -> (r: Vec<(String, String)>)
        ensures
            r@.len() == 2,
            r@[0].0@ == "PORT"@,
            r@[0].1@ == decimal(self@.port as nat),
            r@[1].0@ == "HOST"@,
            r@[1].1@ == self@.host,
    {
        let mut port = String::new();
        push_decimal(&mut port, self.port as u64);
        assert(port@ =~= decimal(self@.port as nat));
        let mut env: Vec<(String, String)> = Vec::new();
        env.push((String::from_str("PORT"), port));
        env.push((String::from_str("HOST"), self.host.clone()));
        env
    }
}

} // verus!
