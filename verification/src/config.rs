//! Configuration values and the program's file locations.
//!
//! Reading and writing the configuration file happens outside the library;
//! these are the plain values it yields and the paths the program uses.

use vstd::prelude::*;

use vstd::string::StringExecFns;

verus! {

/// Credentials for the device service.
#[derive(Debug)]
pub struct GrainfatherAuth {
    pub email: String,
    pub password: String,
}

/// Device service section of the configuration.
#[derive(Debug)]
pub struct Grainfather {
    pub auth: GrainfatherAuth,
}

/// Log sink section of the configuration.
#[derive(Debug)]
pub struct Brewfather {
    pub logging_id: String,
}

/// Everything the program is configured with.
#[derive(Debug)]
pub struct Config {
    pub grainfather: Grainfather,
    pub brewfather: Brewfather,
}

/// The directory all of the program's files live in, under the user's home
/// directory.
pub fn program_dir_path(home_dir: &str) -> (r: String)
    ensures
        r@ == home_dir@ + "/.brewfatherlog"@,
{
    let mut r = String::from_str(home_dir);
    r.append("/.brewfatherlog");
    r
}

/// Where the configuration file lives, under the user's home directory.
pub fn config_file_path(home_dir: &str) -> (r: String)
    ensures
        r@ == home_dir@ + "/.brewfatherlog/brewfatherlog.toml"@,
{
    let mut r = program_dir_path(home_dir);
    r.append("/brewfatherlog.toml");
    proof {
        reveal_strlit("/.brewfatherlog");
        reveal_strlit("/brewfatherlog.toml");
        reveal_strlit("/.brewfatherlog/brewfatherlog.toml");
        assert(r@ =~= home_dir@ + "/.brewfatherlog/brewfatherlog.toml"@);
    }
    r
}

/// Where the log file lives, under the user's home directory.
pub fn log_file_path(home_dir: &str) -> (r: String)
    ensures
        r@ == home_dir@ + "/.brewfatherlog/brewfatherlog.log"@,
{
    let mut r = program_dir_path(home_dir);
    r.append("/brewfatherlog.log");
    proof {
        reveal_strlit("/.brewfatherlog");
        reveal_strlit("/brewfatherlog.log");
        reveal_strlit("/.brewfatherlog/brewfatherlog.log");
        assert(r@ =~= home_dir@ + "/.brewfatherlog/brewfatherlog.log"@);
    }
    r
}

} // verus!
