//! The configuration patch: the exact lines appended to the cluster's
//! configuration file after first initialization.

use vstd::prelude::*;

verus! {

/// One configuration line: `key = 'value'`.
pub open spec fn spec_config_line(key: Seq<char>, value: Seq<char>) -> Seq<char> {
    key + " = '"@ + value + "'"@
}

/// Render one `key = 'value'` line (without a terminator; writing and
/// newline handling belong to whoever appends the lines to the file).
pub fn config_line(key: &str, value: &str) -> (r: String)
    ensures
        r@ == spec_config_line(key@, value@),
{
    let mut r = String::from_str(key);
    r.append(" = '");
    r.append(value);
    r.append("'");
    proof {
        assert(r@ =~= spec_config_line(key@, value@));
    }
    r
}

/// The lines the patch appends, in order. When no TCP port was requested,
/// default network listening is disabled first (socket-only access); then,
/// unconditionally: the socket directory is pointed at the cluster
/// directory, and connection and disconnection logging are switched on.
pub fn config_lines(socket_dir: &str, port: Option<u16>) -> (r: Vec<String>)
    ensures
        port is None ==> r@.len() == 4 && r@[0]@ == spec_config_line(
            "listen_addresses"@,
            ""@,
        ) && r@[1]@ == spec_config_line("unix_socket_directories"@, socket_dir@) && r@[2]@
            == spec_config_line("log_connections"@, "on"@) && r@[3]@ == spec_config_line(
            "log_disconnections"@,
            "on"@,
        ),
        port is Some ==> r@.len() == 3 && r@[0]@ == spec_config_line(
            "unix_socket_directories"@,
            socket_dir@,
        ) && r@[1]@ == spec_config_line("log_connections"@, "on"@) && r@[2]@ == spec_config_line(
            "log_disconnections"@,
            "on"@,
        ),
{
    let mut r: Vec<String> = Vec::new();
    if port.is_none() {
        r.push(config_line("listen_addresses", ""));
    }
    r.push(config_line("unix_socket_directories", socket_dir));
    r.push(config_line("log_connections", "on"));
    r.push(config_line("log_disconnections", "on"));
    r
}

} // verus!
