//! Importing cheat sheets from a repository: which files are offered, how the
//! finder is set up to choose among them, and where each chosen file goes.

use crate::structures::finder::{default_opts, Opts, OptsView, SuggestionType};
use crate::text::{ends_with, join, joined, replace, replaced, split, split_on};
use vstd::prelude::*;

verus! {

/// The repository that lists the featured repositories of cheat sheets.
pub const FEATURED_URL: &'static str = "https://github.com/denisidoro/cheats";

/// How the finder is asked for one of the featured repositories: a single
/// selection of which the first column, the address, is kept.
pub open spec fn browse_view() -> OptsView {
    OptsView { column: Some(1u8), ..default_opts() }
}

/// The configuration for choosing one of the featured repositories.
pub fn browse_opts() -> (opts: Opts)
    ensures
        opts@ == browse_view(),
{
    let mut opts = Opts::default();
    opts.column = Some(1);
    opts
}

/// How the finder is asked for the cheat sheets to import from a clone at
/// `tmp_path`: any number of them, each previewed by its content.
pub open spec fn import_view(tmp_path: Seq<char>) -> OptsView {
    OptsView {
        suggestion_type: SuggestionType::MultipleSelections,
        preview: Some("cat '"@ + tmp_path + "/{}'"@),
        header: Some("Select the cheatsheets you want to import with <TAB> then hit <Enter>"@),
        preview_window: Some("right:30%"@),
        ..default_opts()
    }
}

/// The configuration for choosing the cheat sheets to import.
pub fn import_opts(tmp_path: &str) -> (opts: Opts)
    ensures
        opts@ == import_view(tmp_path@),
{
    let mut preview = "cat '".to_owned();
    preview.append(tmp_path);
    preview.append("/{}'");
    let mut opts = Opts::default();
    opts.suggestion_type = SuggestionType::MultipleSelections;
    opts.preview = Some(preview);
    opts.header = Some(
        "Select the cheatsheets you want to import with <TAB> then hit <Enter>".to_owned(),
    );
    opts.preview_window = Some("right:30%".to_owned());
    opts
}

/// Of the paths found in a clone at `tmp_path`, those of cheat sheets, each
/// without the path of the clone before it.
pub open spec fn cheat_paths(paths: Seq<Seq<char>>, tmp_path: Seq<char>) -> Seq<Seq<char>>
    decreases paths.len(),
{
    if paths.len() == 0 {
        Seq::<Seq<char>>::empty()
    } else {
        let above = cheat_paths(paths.drop_last(), tmp_path);
        if ".cheat"@.is_suffix_of(paths.last()) {
            above.push(replaced(paths.last(), tmp_path + "/"@, ""@))
        } else {
            above
        }
    }
}

/// The cheat sheets of a clone as the finder is given them, one on each line.
pub fn cheat_files(paths: &Vec<String>, tmp_path: &str) -> (listing: String)
    ensures
        listing@ == joined(cheat_paths(paths.deep_view(), tmp_path@), "\n"@),
{
    let mut prefix = tmp_path.to_owned();
    prefix.append("/");
    let ghost all = paths.deep_view();
    let mut found: Vec<String> = Vec::new();
    let mut i: usize = 0;
    while i < paths.len()
        invariant
            i <= paths.len(),
            all == paths.deep_view(),
            prefix@ == tmp_path@ + "/"@,
            found.deep_view() == cheat_paths(all.take(i as int), tmp_path@),
        decreases paths.len() - i,
    {
        proof {
            assert(all.take(i + 1).drop_last() == all.take(i as int));
            assert(all.take(i + 1).last() == paths[i as int]@);
        }
        if ends_with(paths[i].as_str(), ".cheat") {
            found.push(replace(paths[i].as_str(), prefix.as_str(), ""));
        }
        i += 1;
    }
    assert(all.take(paths.len() as int) == all);
    join(&found, "\n")
}

/// Where a chosen cheat sheet is copied from, and where to.
#[derive(Clone, Debug, PartialEq, Eq)]
pub struct Import {
    /// The file in the clone.
    pub from: String,
    /// The folder of the repository among the user's cheat sheets.
    pub to_folder: String,
    /// The file in that folder.
    pub to: String,
}

/// An import with its paths as character sequences.
pub struct ImportView {
    pub from: Seq<char>,
    pub to_folder: Seq<char>,
    pub to: Seq<char>,
}

impl View for Import {
    type V = ImportView;

    open spec fn view(&self) -> ImportView {
        ImportView { from: self.from@, to_folder: self.to_folder@, to: self.to@ }
    }
}

/// The import of the cheat sheet `file` of a clone at `tmp_path`. It goes to
/// the folder named after owner and repository under `cheat_path`, under a
/// name in which two underscores stand for each slash of its path. No path
/// keeps a `./`.
pub open spec fn import_of(
    file: Seq<char>,
    tmp_path: Seq<char>,
    cheat_path: Seq<char>,
    user: Seq<char>,
    repo: Seq<char>,
) -> ImportView {
    let to_folder = replaced(cheat_path + "/"@ + user + "__"@ + repo, "./"@, ""@);
    let filename = replaced(replaced(file, "./"@, ""@), "/"@, "__"@);
    ImportView {
        from: replaced(tmp_path + "/"@ + file, "./"@, ""@),
        to_folder,
        to: to_folder + "/"@ + filename,
    }
}

/// Plans the import of one chosen cheat sheet.
pub fn plan_import(file: &str, tmp_path: &str, cheat_path: &str, user: &str, repo: &str) -> (plan:
    Import)
    ensures
        plan@ == import_of(file@, tmp_path@, cheat_path@, user@, repo@),
{
    let mut source = tmp_path.to_owned();
    source.append("/");
    source.append(file);
    let from = replace(source.as_str(), "./", "");
    let mut folder = cheat_path.to_owned();
    folder.append("/");
    folder.append(user);
    folder.append("__");
    folder.append(repo);
    let to_folder = replace(folder.as_str(), "./", "");
    let plain = replace(file, "./", "");
    let filename = replace(plain.as_str(), "/", "__");
    let mut to = to_folder.clone();
    to.append("/");
    to.append(filename.as_str());
    Import { from, to_folder, to }
}

/// Plans the import of the cheat sheets that the finder returned, one for
/// each line of `files`, in order.
pub fn plan_imports(files: &str, tmp_path: &str, cheat_path: &str, user: &str, repo: &str) -> (plans:
    Vec<Import>)
    ensures
        plans.len() == split_on(files@, '\n').len(),
        forall|i: int|
            0 <= i < plans.len() ==> (#[trigger] plans[i])@ == import_of(
                split_on(files@, '\n')[i],
                tmp_path@,
                cheat_path@,
                user@,
                repo@,
            ),
{
    let chosen = split(files, '\n');
    let mut plans: Vec<Import> = Vec::new();
    let mut i: usize = 0;
    while i < chosen.len()
        invariant
            i <= chosen.len(),
            chosen.deep_view() == split_on(files@, '\n'),
            plans.len() == i,
            forall|k: int|
                0 <= k < i ==> (#[trigger] plans[k])@ == import_of(
                    split_on(files@, '\n')[k],
                    tmp_path@,
                    cheat_path@,
                    user@,
                    repo@,
                ),
        decreases chosen.len() - i,
    {
        assert(chosen.deep_view()[i as int] == chosen[i as int]@);
        let plan = plan_import(chosen[i].as_str(), tmp_path, cheat_path, user, repo);
        plans.push(plan);
        i += 1;
    }
    plans
}

} // verus!
