use vstd::prelude::*;

verus! {

/// A key/value store that survives restarts, used to keep IMU calibration.
pub trait PersistentStorage: Send + Sync {
    fn get(&self, key: &str) -> Option<String>;

    fn set(&self, key: &str, value: &str);

    fn remove(&self, key: &str);
}

/// The path that joining `name` onto `dir` gives, with `/` as separator:
/// an absolute `name` replaces `dir`, and a separator is inserted only
/// where `dir` is non-empty and does not already end in one.
pub open spec fn joined_path(dir: Seq<char>, name: Seq<char>) -> Seq<char> {
    if name.len() > 0 && name[0] == '/' {
        name
    } else if dir.len() == 0 || dir.last() == '/' {
        dir + name
    } else {
        dir + seq!['/'] + name
    }
}

/// Joins `name` onto the directory path `dir`.
pub fn join_path(dir: &str, name: &str) -> (joined: String)
    ensures
        joined@ == joined_path(dir@, name@),
{
    let name_len = name.unicode_len();
    if name_len > 0 && name.get_char(0) == '/' {
        return String::from_str(name);
    }
    let dir_len = dir.unicode_len();
    let mut out = String::from_str(dir);
    if dir_len > 0 && dir.get_char(dir_len - 1) != '/' {
        let sep = "/";
        proof {
            reveal_strlit("/");
        }
        out.append(sep);
    }
    out.append(name);
    proof {
        assert(dir_len > 0 ==> dir@.last() == dir@[dir_len - 1]);
    }
    out
}

/// Storage that keeps one text file per key inside a directory.
pub struct FileStorage {
    pub dir: String,
}

impl FileStorage {
    /// A store rooted at `dir`. Creating the directory on disk is the
    /// caller's part.
    pub fn new(dir: String) -> (storage: Self)
        ensures
            storage.dir == dir,
    {
        FileStorage { dir }
    }

    /// The file that holds the value stored under `key`: `<key>.txt` in the
    /// store's directory.
    pub fn get_path(&self, key: &str) -> (path: String)
        ensures
            path@ == joined_path(self.dir@, key@ + ".txt"@),
    {
        let mut file_name = String::from_str(key);
        file_name.append(".txt");
        join_path(self.dir.as_str(), file_name.as_str())
    }
}

} // verus!
