use vstd::prelude::*;

verus! {

/// The file that the app bundle is packed into.
pub const APP_TAR_GZ: &'static str = "app.tar.gz";

/// Why the app bundle cannot be packed.
#[derive(Debug, Clone)]
pub enum ArchiveError {
    /// The working tree has modified files; the status listing is kept for the operator.
    UncommittedChanges(String),
    /// Packing failed, most likely because the directory is not a git repository; the
    /// exit status of git is kept.
    NotManagedByGit(i32),
}

/// Whether a porcelain status listing reports a modified file: it holds an `M` followed
/// by a space.
pub open spec fn reports_modification(status: Seq<char>) -> bool {
    exists|i: int| 0 <= i && i + 1 < status.len() && #[trigger] status[i] == 'M' && status[i + 1] == ' '
}

/// Whether a porcelain status listing reports a modified file.
pub fn has_modifications(status: &str) -> (r: bool)
    ensures
        r == reports_modification(status@),
{
    let n = status.unicode_len();
    let mut i: usize = 0;
    while i < n
        invariant
            n == status@.len(),
            i <= n,
            forall|k: int| 0 <= k < i && k + 1 < n ==> !(#[trigger] status@[k] == 'M' && status@[k + 1] == ' '),
        decreases n - i,
    {
        if i + 1 < n && status.get_char(i) == 'M' && status.get_char(i + 1) == ' ' {
            return true;
        }
        i = i + 1;
    }
    proof {
        if reports_modification(status@) {
            let k = choose|k: int| 0 <= k && k + 1 < status@.len() && #[trigger] status@[k] == 'M' && status@[k + 1] == ' ';
            assert(!(status@[k] == 'M' && status@[k + 1] == ' '));
        }
    }
    false
}

/// The arguments of the git command that packs the committed tree into the app bundle.
pub open spec fn archive_args_spec() -> Seq<Seq<char>> {
    seq!["archive"@, "--format=tar.gz"@, "-o"@, APP_TAR_GZ@, "HEAD"@]
}

/// Decides, from the porcelain status listing of the working tree, how the app bundle is
/// made: the arguments of the git command that packs the committed tree into
/// `app.tar.gz`, or an error when the tree has modified files.
pub fn make_app_tar_gz(status: &str) -> (r: Result<Vec<String>, ArchiveError>)
    ensures
        r is Err <==> reports_modification(status@),
        r matches Err(e) ==> e matches ArchiveError::UncommittedChanges(s) && s@ == status@,
        r matches Ok(args) ==> args@.map_values(|a: String| a@) == archive_args_spec(),
{
    if has_modifications(status) {
        return Err(ArchiveError::UncommittedChanges(String::from_str(status)));
    }
    let mut args: Vec<String> = Vec::new();
    args.push(String::from_str("archive"));
    args.push(String::from_str("--format=tar.gz"));
    args.push(String::from_str("-o"));
    args.push(String::from_str(APP_TAR_GZ));
    args.push(String::from_str("HEAD"));
    proof {
        assert(args@.map_values(|a: String| a@) =~= archive_args_spec());
    }
    Ok(args)
}

/// Reads the exit status of the packing command: zero is success.
pub fn archive_outcome(code: i32) -> (r: Result<(), ArchiveError>)
    ensures
        r is Ok <==> code == 0,
        r matches Err(e) ==> e matches ArchiveError::NotManagedByGit(c) && c == code,
{
    if code == 0 {
        Ok(())
    } else {
        Err(ArchiveError::NotManagedByGit(code))
    }
}

} // verus!
