//! What the commands say about the files that they used.

use crate::colors::{message1, message2, message_and, message_view, Message, Painted, Tone};
use crate::filter::FilterOptions;
use crate::output::Output;
use crate::saucefile::Saucefile;
use crate::settings::Settings;
use crate::shell::actions::{after_values, autoload_in_force, put_out_values};
use crate::shell::Shell;
use crate::paths::{components, is_under, path_components, relative_to};
use crate::text::{
    appended, has_prefix, join_texts, join_with, same, string_views, views,
};
use vstd::prelude::*;

verus! {

/// The path of a file below `root`, as it is shown: its components below
/// the root with `/` between them.
pub open spec fn shown_path(path: Seq<char>, root: Seq<char>) -> Seq<char> {
    join_with(relative_to(path, root), seq!['/'])
}

/// The shown paths of the first `upto` files, those that lie under `root`.
pub open spec fn shown_paths(paths: Seq<Seq<char>>, root: Seq<char>, upto: int) -> Seq<Seq<char>>
    decreases upto,
{
    if upto <= 0 || upto > paths.len() {
        Seq::empty()
    } else {
        let before = shown_paths(paths, root, upto - 1);
        if is_under(paths[upto - 1], root) {
            before.push(shown_path(paths[upto - 1], root))
        } else {
            before
        }
    }
}

/// The shown paths with a comma and a blank between them.
pub open spec fn listed(paths: Seq<Seq<char>>, root: Seq<char>) -> Seq<char> {
    join_with(shown_paths(paths, root, paths.len() as int), ", "@)
}

/// What is said of the files that a command used: the action and the
/// files, and the root that they lie under unless the list begins with
/// it. Where there is nothing to list, there are no files.
pub open spec fn path_message(action: Seq<char>, data_dir: Seq<char>, paths: Seq<Seq<char>>) -> Message {
    let list = listed(paths, data_dir);
    if list.len() == 0 {
        seq![(Tone::RedBold, "No saucefiles exist"@)]
    } else if data_dir.is_prefix_of(list) {
        seq![(Tone::BlueBold, action + " "@), (Tone::Yellow, list)]
    } else {
        seq![
            (Tone::BlueBold, action + " "@),
            (Tone::Yellow, list),
            (Tone::BlueBold, " from "@),
            (Tone::Yellow, data_dir),
        ]
    }
}

/// The components of `path` below `root`, where it lies under `root`.
fn below<'a>(path: &'a str, root: &Vec<&str>) -> (r: Option<Vec<String>>)
    ensures
        match r {
            Some(parts) => views(root@).is_prefix_of(components(path@)) && string_views(parts@)
                == components(path@).skip(root@.len() as int),
            None => !views(root@).is_prefix_of(components(path@)),
        },
{
    let parts = path_components(path);
    if root.len() > parts.len() {
        return None;
    }
    let mut i: usize = 0;
    while i < root.len()
        invariant
            i <= root@.len(),
            root@.len() <= parts@.len(),
            views(parts@) == components(path@),
            forall|j: int| 0 <= j < i ==> root@[j]@ == parts@[j]@,
        decreases root@.len() - i,
    {
        if !same(root[i], parts[i]) {
            proof {
                assert(views(root@)[i as int] != views(parts@)[i as int]);
            }
            return None;
        }
        i += 1;
    }
    let mut out: Vec<String> = Vec::new();
    let mut k: usize = root.len();
    while k < parts.len()
        invariant
            root@.len() <= k <= parts@.len(),
            out@.len() == k - root@.len(),
            forall|j: int| 0 <= j < out@.len() ==> out@[j]@ == parts@[root@.len() + j]@,
        decreases parts@.len() - k,
    {
        out.push(parts[k].to_owned());
        k += 1;
    }
    Some(out)
}

/// The message about the files that a command used.
pub fn materialize_path_message(action: &str, data_dir: &str, paths: &Vec<String>) -> (message: Vec<
    Painted,
>)
    ensures
        message_view(message@) == path_message(action@, data_dir@, string_views(paths@)),
{
    let root = path_components(data_dir);
    let ghost all = string_views(paths@);
    let mut shown: Vec<String> = Vec::new();
    let mut i: usize = 0;
    while i < paths.len()
        invariant
            i <= paths@.len(),
            all == string_views(paths@),
            views(root@) == components(data_dir@),
            string_views(shown@) == shown_paths(all, data_dir@, i as int),
        decreases paths@.len() - i,
    {
        match below(paths[i].as_str(), &root) {
            Some(parts) => {
                let text = join_texts(&parts, "/");
                proof {
                    reveal_strlit("/");
                    assert("/"@ =~= seq!['/']);
                }
                shown.push(text);
            },
            None => {},
        }
        i += 1;
    }
    let list = join_texts(&shown, ", ");
    if list.as_str().is_empty() {
        message1(Tone::RedBold, "No saucefiles exist")
    } else {
        let head = appended(action, " ");
        let message = message2(Tone::BlueBold, head.as_str(), Tone::Yellow, list.as_str());
        if has_prefix(list.as_str(), data_dir) {
            message
        } else {
            let message = message_and(
                message_and(message, Tone::BlueBold, " from "),
                Tone::Yellow,
                data_dir,
            );
            message
        }
    }
}

/// Puts out what sets everything that the directory configures, and says
/// which files it came from: those that exist, shown below `data_dir`.
/// The answer is `true` where that was done.
///
/// With `autoload` the command runs because the directory was entered.
/// Where the `autoload` setting is off, nothing is put out or said and the
/// answer is `false`.
pub fn execute<S: Shell>(
    output: &mut Output,
    shell: &S,
    saucefile: &Saucefile,
    global_settings: &Settings,
    filter_options: &FilterOptions,
    autoload: bool,
    data_dir: &str,
) -> (sauced: bool)
    ensures
        sauced == (!autoload || autoload_in_force(*saucefile, *global_settings)),
        !sauced ==> final(output)@ == after_values(
            old(output)@,
            shell,
            *saucefile,
            *global_settings,
            filter_options@,
            autoload,
        ),
        sauced ==> final(output)@ == after_values(
            old(output)@,
            shell,
            *saucefile,
            *global_settings,
            filter_options@,
            autoload,
        ).notified(path_message("Sauced"@, data_dir@, saucefile.existing())),
{
    if !put_out_values(output, shell, saucefile, global_settings, filter_options, autoload) {
        return false;
    }
    let message = materialize_path_message("Sauced", data_dir, &saucefile.paths());
    output.notify(&message);
    true
}

} // verus!
