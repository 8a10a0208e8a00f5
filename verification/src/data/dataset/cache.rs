//! Where the cached candles of a symbol and interval are stored.

use vstd::prelude::*;
use vstd::string::*;
use crate::data::interval::{Interval, spec_label};
use crate::error::KryptoError;
use crate::text::owned;

verus! {

/// The extension of cache files.
pub open spec fn cache_file_ext() -> Seq<char> {
    "bin"@
}

/// The cache format version, part of every file name so that old caches are not read.
pub open spec fn cache_version() -> Seq<char> {
    "v1"@
}

/// The file name of a symbol's cached candles: `<symbol>_<interval>_v1.bin`.
pub open spec fn cache_file_name(symbol: Seq<char>, interval: Interval) -> Seq<char> {
    symbol + "_"@ + spec_label(interval) + "_"@ + cache_version() + "."@ + cache_file_ext()
}

/// A relative path appended to a directory, as `PathBuf::join` does on Unix: an
/// absolute path replaces the directory, and a separator is put in between
/// unless the directory is empty or already ends with one.
pub open spec fn path_join(dir: Seq<char>, name: Seq<char>) -> Seq<char> {
    if name.len() > 0 && name[0] == '/' {
        name
    } else if dir.len() == 0 || dir.last() == '/' {
        dir + name
    } else {
        dir + "/"@ + name
    }
}

/// Appends a file name to a directory path.
pub fn join_path(dir: &str, name: &str) -> (r: String)
    ensures
        r@ == path_join(dir@, name@),
{
    proof { reveal_strlit("/"); }
    if name.unicode_len() > 0 && name.get_char(0) == '/' {
        return owned(name);
    }
    let dl = dir.unicode_len();
    if dl == 0 || dir.get_char(dl - 1) == '/' {
        let mut r = owned(dir);
        r.append(name);
        r
    } else {
        let mut r = owned(dir);
        r.append("/");
        r.append(name);
        r
    }
}

/// The path of the cache file of a symbol and interval, inside the configured cache directory.
pub fn get_cache_path(cache_dir: &Option<String>, symbol: &str, interval: &Interval) -> (r: Result<String, KryptoError>)
    ensures
        match cache_dir {
            None => r matches Err(KryptoError::ConfigError(m)) && m@ == "Cache directory is not configured."@,
            Some(d) => r matches Ok(p) && p@ == path_join(d@, cache_file_name(symbol@, *interval)),
        },
{
    match cache_dir {
        None => Err(KryptoError::ConfigError(owned("Cache directory is not configured."))),
        Some(dir) => {
            let mut filename = owned(symbol);
            filename.append("_");
            filename.append(interval.to_string().as_str());
            filename.append("_");
            filename.append("v1");
            filename.append(".");
            filename.append("bin");
            assert(filename@ =~= cache_file_name(symbol@, *interval));
            Ok(join_path(dir.as_str(), filename.as_str()))
        },
    }
}

} // verus!
