//! Where Voce keeps its data: paths under the user's home directory, held as
//! the bytes of the path (on Unix a path is any sequence of bytes).

use vstd::prelude::*;
use vstd::string::StringSliceAdditionalSpecFns;

verus! {

/// Name of the Voce data directory under the home directory.
pub const VOCE_DIR_NAME: &'static str = ".voce";
/// Name of the models directory under the data directory.
pub const MODELS_DIR_NAME: &'static str = "models";
/// Name of the enrolled embedding file under the data directory.
pub const ENROLLED_EMBEDDING_NAME: &'static str = "enrolled_embedding.json";
/// Name of the configuration file under the data directory.
pub const CONFIG_FILE_NAME: &'static str = "config.json";
/// Gate vote window when the configuration does not say otherwise.
pub const DEFAULT_VOTE_WINDOW: usize = 3;

/// The path separator byte, `/`.
pub const SEPARATOR: u8 = 0x2f;

/// The path `base` with the relative component `name` appended, as
/// `Path::join` makes it on Unix: a separator goes between the two unless
/// `base` is empty or already ends in one.
pub open spec fn joined(base: Seq<u8>, name: Seq<u8>) -> Seq<u8> {
    if base.len() == 0 || base.last() == SEPARATOR {
        base + name
    } else {
        base.push(SEPARATOR) + name
    }
}

/// The data directory under the home directory `home`.
pub open spec fn voce_dir_of(home: Seq<u8>) -> Seq<u8> {
    joined(home, VOCE_DIR_NAME.spec_bytes())
}

/// The entry `name` of the data directory under the home directory `home`.
pub open spec fn data_path_of(home: Seq<u8>, name: Seq<u8>) -> Seq<u8> {
    joined(voce_dir_of(home), name)
}

/// Calls `dirs::home_dir`: the current user's home directory, or `None` when
/// it cannot be determined, handed over as the bytes of the path. It reads
/// the environment, so nothing is claimed of the result.
#[verifier::external_body]
fn home_dir() -> Option<Vec<u8>> {
    match dirs::home_dir() {
        Some(path) => Some(path.into_os_string().into_encoded_bytes()),
        None => None,
    }
}

/// Append the relative component `name` to the path `base`.
fn join_component(base: Vec<u8>, name: &str) -> (r: Vec<u8>)
    ensures
        r@ == joined(base@, name.spec_bytes()),
{
    let mut path = base;
    let n = path.len();
    if n > 0 && path[n - 1] != SEPARATOR {
        path.push(SEPARATOR);
    }
    let ghost start = path@;
    let bytes = name.as_bytes();
    let mut i: usize = 0;
    while i < bytes.len()
        invariant
            i <= bytes@.len(),
            path@ == start + bytes@.take(i as int),
        decreases bytes@.len() - i,
    {
        path.push(bytes[i]);
        assert(bytes@.take(i + 1) =~= bytes@.take(i as int).push(bytes@[i as int]));
        i = i + 1;
    }
    assert(bytes@.take(bytes@.len() as int) =~= bytes@);
    path
}

/// Default for the noise suppression setting.
pub fn default_true() -> (r: bool)
    ensures
        r,
{
    true
}

/// The Voce data directory under the home directory `home`.
pub fn voce_dir_in(home: Vec<u8>) -> (r: Vec<u8>)
    ensures
        r@ == voce_dir_of(home@),
{
    join_component(home, VOCE_DIR_NAME)
}

/// The entry `name` of the Voce data directory under the home directory `home`.
pub fn data_path_in(home: Vec<u8>, name: &str) -> (r: Vec<u8>)
    ensures
        r@ == data_path_of(home@, name.spec_bytes()),
{
    join_component(voce_dir_in(home), name)
}

/// Returns the Voce data directory, `~/.voce/`; `None` when the home
/// directory is unknown.
pub fn voce_dir() -> (r: Option<Vec<u8>>)
    ensures
        r matches Some(p) ==> exists|home: Seq<u8>| p@ == #[trigger] voce_dir_of(home),
{
    match home_dir() {
        Some(home) => {
            let ghost h = home@;
            let dir = voce_dir_in(home);
            assert(dir@ == voce_dir_of(h));
            Some(dir)
        },
        None => None,
    }
}

fn in_voce_dir(name: &str) -> (r: Option<Vec<u8>>)
    ensures
        r matches Some(p) ==> exists|home: Seq<u8>| p@ == #[trigger] data_path_of(home, name.spec_bytes()),
{
    match voce_dir() {
        Some(dir) => {
            let ghost d = dir@;
            let ghost home = choose|home: Seq<u8>| d == #[trigger] voce_dir_of(home);
            let path = join_component(dir, name);
            assert(path@ == data_path_of(home, name.spec_bytes()));
            Some(path)
        },
        None => None,
    }
}

/// `~/.voce/models`.
pub fn models_dir() -> (r: Option<Vec<u8>>)
    ensures
        r matches Some(p) ==> exists|home: Seq<u8>| p@ == #[trigger] data_path_of(home, MODELS_DIR_NAME.spec_bytes()),
{
    in_voce_dir(MODELS_DIR_NAME)
}

/// `~/.voce/enrolled_embedding.json`.
pub fn enrolled_embedding_path() -> (r: Option<Vec<u8>>)
    ensures
        r matches Some(p) ==> exists|home: Seq<u8>| p@ == #[trigger] data_path_of(home, ENROLLED_EMBEDDING_NAME.spec_bytes()),
{
    in_voce_dir(ENROLLED_EMBEDDING_NAME)
}

/// `~/.voce/config.json`.
pub fn config_path() -> (r: Option<Vec<u8>>)
    ensures
        r matches Some(p) ==> exists|home: Seq<u8>| p@ == #[trigger] data_path_of(home, CONFIG_FILE_NAME.spec_bytes()),
{
    in_voce_dir(CONFIG_FILE_NAME)
}

} // verus!
