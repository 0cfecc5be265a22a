//! Construction of the administrative and server command lines: which
//! program to run and with which arguments, as plain strings.

use vstd::prelude::*;

use crate::numfmt::{dec_str, decimal_string};

verus! {

/// Where a program lives: either on the search path under its bare name, or
/// under the `bin` subdirectory of a caller-supplied installation directory.
pub open spec fn spec_program_path(pg_dir: Option<Seq<char>>, cmd: Seq<char>) -> Seq<char> {
    match pg_dir {
        None => cmd,
        Some(d) => d + "/bin/"@ + cmd,
    }
}

/// Resolve a program name against the optional installation directory.
pub fn pg_program_path(pg_dir: &Option<String>, cmd: &str) -> (r: String)
    ensures
        r@ == spec_program_path(
            match pg_dir {
                Some(d) => Some(d@),
                None => None,
            },
            cmd@,
        ),
{
    match pg_dir {
        None => {
            let r = String::from_str(cmd);
            r
        },
        Some(d) => {
            let mut r = d.clone();
            r.append("/bin/");
            r.append(cmd);
            r
        },
    }
}

/// Arguments of the initializer: the data-directory flag and the directory.
pub fn initdb_args(dir: &str) -> (r: Vec<String>)
    ensures
        r@.len() == 2,
        r@[0]@ == "-D"@,
        r@[1]@ == dir@,
{
    let mut r: Vec<String> = Vec::new();
    r.push(String::from_str("-D"));
    r.push(String::from_str(dir));
    r
}

/// Arguments of the server: the data directory, and the TCP port when one
/// was requested (otherwise the server is reached over the socket alone).
pub fn postgres_args(dir: &str, port: Option<u16>) -> (r: Vec<String>)
    ensures
        port is None ==> r@.len() == 2,
        port matches Some(p) ==> r@.len() == 4 && r@[2]@ == "-p"@ && r@[3]@ == dec_str(p as nat),
        r@[0]@ == "-D"@,
        r@[1]@ == dir@,
{
    let mut r: Vec<String> = Vec::new();
    r.push(String::from_str("-D"));
    r.push(String::from_str(dir));
    if let Some(p) = port {
        r.push(String::from_str("-p"));
        r.push(decimal_string(p as u64));
    }
    r
}

/// Arguments shared by the database-creation command and the interactive
/// session: host the socket directory, and the port when one was requested.
pub fn host_port_args(dir: &str, port: Option<u16>) -> (r: Vec<String>)
    ensures
        port is None ==> r@.len() == 2,
        port matches Some(p) ==> r@.len() == 4 && r@[2]@ == "--port"@ && r@[3]@ == dec_str(
            p as nat,
        ),
        r@[0]@ == "--host"@,
        r@[1]@ == dir@,
{
    let mut r: Vec<String> = Vec::new();
    r.push(String::from_str("--host"));
    r.push(String::from_str(dir));
    if let Some(p) = port {
        r.push(String::from_str("--port"));
        r.push(decimal_string(p as u64));
    }
    r
}

/// Arguments of the database-creation command.
pub fn createdb_args(dir: &str, port: Option<u16>) -> (r: Vec<String>)
    ensures
        port is None ==> r@.len() == 2,
        port matches Some(p) ==> r@.len() == 4 && r@[2]@ == "--port"@ && r@[3]@ == dec_str(
            p as nat,
        ),
        r@[0]@ == "--host"@,
        r@[1]@ == dir@,
{
    host_port_args(dir, port)
}

/// Arguments of the interactive session.
pub fn psql_args(dir: &str, port: Option<u16>) -> (r: Vec<String>)
    ensures
        port is None ==> r@.len() == 2,
        port matches Some(p) ==> r@.len() == 4 && r@[2]@ == "--port"@ && r@[3]@ == dec_str(
            p as nat,
        ),
        r@[0]@ == "--host"@,
        r@[1]@ == dir@,
{
    host_port_args(dir, port)
}

} // verus!
