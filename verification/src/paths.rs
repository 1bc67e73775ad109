//! The path resolver: derives the writable data directory, the database file
//! path and the connection string from the OS-resolved application data root.

use vstd::prelude::*;
use vstd::string::*;

verus! {

/// A path joined to one more component, in the manner of the OS path APIs:
/// a separator is inserted unless the directory already ends with one.
pub open spec fn spec_join(dir: Seq<char>, sep: char, name: Seq<char>) -> Seq<char> {
    if dir.len() == 0 {
        name
    } else if dir.last() == sep {
        dir + name
    } else {
        dir + seq![sep] + name
    }
}

/// The connection string handed to the child: the literal scheme `file:`
/// followed by the native path, unmodified — no escaping or URL-encoding.
pub open spec fn spec_connection_string(db_path: Seq<char>) -> Seq<char> {
    "file:"@ + db_path
}

/// `<root>/data`, the writable directory created before the child is spawned.
pub open spec fn spec_data_dir(root: Seq<char>, sep: char) -> Seq<char> {
    spec_join(root, sep, "data"@)
}

/// `<root>/data/family.db`, the local database file the child will own.
pub open spec fn spec_db_path(root: Seq<char>, sep: char) -> Seq<char> {
    spec_join(spec_data_dir(root, sep), sep, "family.db"@)
}

/// Append one path component, inserting `sep` unless `dir` already ends
/// with it or is empty.
pub fn join_path(dir: &str, sep: &str, name: &str) -> (r: String)
    requires
        sep@.len() == 1,
    ensures
        r@ == spec_join(dir@, sep@[0], name@),
{
    let n: usize = dir.unicode_len();
    if n == 0 {
        String::from_str(name)
    } else {
        let last = dir.get_char(n - 1);
        let sep_c = sep.get_char(0);
        if last == sep_c {
            String::from_str(dir).concat(name)
        } else {
            let r = String::from_str(dir).concat(sep).concat(name);
            proof {
                assert(sep@ =~= seq![sep@[0]]);
                assert((dir@ + sep@) + name@ =~= dir@ + seq![sep@[0]] + name@);
            }
            r
        }
    }
}

/// The writable paths the launcher derives once at startup. Immutable after
/// computation; the host only creates `data_dir` on disk and hands
/// `database_url` to the child.
pub struct DataPaths {
    /// `<app-data-root>/data`.
    pub data_dir: String,
    /// `<data_dir>/family.db`.
    pub db_path: String,
    /// `file:<db_path>`.
    pub database_url: String,
}

/// Derive the data directory, the database file path and the connection
/// string from the OS-resolved application data root.
pub fn resolve_data_paths(app_data_root: &str, sep: &str) -> (r: DataPaths)
    requires
        sep@.len() == 1,
    ensures
        r.data_dir@ == spec_data_dir(app_data_root@, sep@[0]),
        r.db_path@ == spec_db_path(app_data_root@, sep@[0]),
        r.database_url@ == spec_connection_string(spec_db_path(app_data_root@, sep@[0])),
{
    let data_dir = join_path(app_data_root, sep, "data");
    let db_path = join_path(data_dir.as_str(), sep, "family.db");
    let database_url = String::from_str("file:").concat(db_path.as_str());
    DataPaths { data_dir, db_path, database_url }
}

/// The database file lies directly under the data directory — the directory
/// whose creation the launcher ensures before the child is spawned — so the
/// parent directory of the connection string's path exists after resolution.
pub proof fn lemma_db_path_under_data_dir(root: Seq<char>, sep: char)
    ensures
        spec_db_path(root, sep).len() > spec_data_dir(root, sep).len(),
        spec_db_path(root, sep).subrange(0, spec_data_dir(root, sep).len() as int) == spec_data_dir(
            root,
            sep,
        ),
{
    reveal_strlit("data");
    reveal_strlit("family.db");
    let dir = spec_data_dir(root, sep);
    let db = spec_db_path(root, sep);
    assert(dir.len() > 0);
    if dir.last() == sep {
        assert(db == dir + "family.db"@);
    } else {
        assert(db == dir + seq![sep] + "family.db"@);
    }
    assert(db.subrange(0, dir.len() as int) =~= dir);
}

/// The connection string always has the exact form `file:<path>`: the first
/// five characters are the scheme and the rest is the path, unchanged.
pub proof fn lemma_connection_string_form(db_path: Seq<char>)
    ensures
        spec_connection_string(db_path).len() == 5 + db_path.len(),
        spec_connection_string(db_path).subrange(0, 5) =~= "file:"@,
        spec_connection_string(db_path).skip(5) =~= db_path,
{
    reveal_strlit("file:");
}

} // verus!
