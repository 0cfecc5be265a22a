//! The run's input surface, and the choice of the single controlling
//! activity that a run may host.

use vstd::prelude::*;

verus! {

/// The parsed command-line input of one run. Parsing itself happens outside
/// the library; this is the plain result it hands over.
pub struct Args {
    /// Target cluster directory.
    pub directory: String,
    /// Reuse an already-initialized directory: skip initialization,
    /// configuration patching and database creation.
    pub use_existing_dir: bool,
    /// TCP port to bind in addition to the socket; absent means socket only.
    pub port: Option<u16>,
    /// Directory-removal flag: `Some(true)` always remove, `Some(false)`
    /// never, `None` ask interactively.
    pub should_remove: Option<bool>,
    /// Host an interactive session as the controlling activity.
    pub psql: bool,
    /// Suppress forwarding of child output.
    pub silent: bool,
    /// Trailing `program [args...]` to run as the controlling activity
    /// when no interactive session was requested.
    pub around: Vec<String>,
}

/// The single foreground activity of a run. At most one process may hold
/// controlling status, so the three possibilities form one variant, decided
/// once before anything is spawned.
pub enum ControllingActivity {
    /// An interactive database session.
    InteractiveSession,
    /// A user-supplied command: first trailing token as program, rest as
    /// its arguments.
    UserCommand { program: String, cmd_args: Vec<String> },
    /// Neither was requested: the run just hosts the server.
    NoActivity,
}

/// Decide the controlling activity. An interactive session wins over a
/// trailing command; with neither requested there is no controlling process.
pub fn choose_controlling(psql: bool, around: &Vec<String>) -> (r: ControllingActivity)
    ensures
        psql ==> r is InteractiveSession,
        !psql && around@.len() > 0 ==> (r matches ControllingActivity::UserCommand {
            program,
            cmd_args,
        } && program == around@[0] && cmd_args@ == around@.skip(1)),
        !psql && around@.len() == 0 ==> r is NoActivity,
{
    if psql {
        ControllingActivity::InteractiveSession
    } else if around.len() > 0 {
        let program = around[0].clone();
        let mut cmd_args: Vec<String> = Vec::new();
        let mut i: usize = 1;
        while i < around.len()
            invariant
                1 <= i <= around@.len(),
                around@.len() > 0,
                cmd_args@ == around@.subrange(1, i as int),
            decreases around@.len() - i,
        {
            cmd_args.push(around[i].clone());
            i = i + 1;
        }
        proof {
            assert(cmd_args@ =~= around@.skip(1));
        }
        ControllingActivity::UserCommand { program, cmd_args }
    } else {
        ControllingActivity::NoActivity
    }
}

} // verus!
