//! What a static file server answers.
//!
//! The server itself, and every look at the file system, is the caller's
//! business. Here is what follows from what it finds: whether a request is
//! refused, and the page that lists a directory.

use vstd::prelude::*;
use vstd::string::StrSliceExecFns;
use vstd::string::StringExecFns;
use crate::cli::path_exists;
use crate::cli::path_is_dir;
use crate::strings::ascending;
use crate::strings::opt_text;
use crate::strings::sort_strings;
use crate::strings::texts;
use crate::strings::trim_end_matches;
use crate::strings::trim_start_matches;
use crate::strings::without_leading;
use crate::strings::without_trailing;

verus! {

/// What the server does with a request.
#[derive(Debug, Clone, Copy, PartialEq, Eq, Structural)]
pub enum ServeAction {
    /// Refuse it: the path climbs out of the directory served.
    Forbidden,
    /// Report that nothing of that name exists.
    NotFound,
    /// List the directory it names.
    ListDirectory,
    /// Send the file it names.
    SendFile,
}

/// What the file system says of a requested path.
#[derive(Debug, Clone, Copy, PartialEq, Eq, Structural)]
pub struct PathFacts {
    /// Whether one of its components is `..`.
    pub climbs: bool,
    /// Whether something of that name exists under the directory served.
    pub exists: bool,
    /// Whether that is a directory.
    pub is_dir: bool,
}

impl ServeAction {
    /// The action that the facts call for.
    pub open spec fn for_facts(facts: PathFacts) -> ServeAction {
        if facts.climbs {
            ServeAction::Forbidden
        } else if !facts.exists {
            ServeAction::NotFound
        } else if facts.is_dir {
            ServeAction::ListDirectory
        } else {
            ServeAction::SendFile
        }
    }

    /// The HTTP status of the answer, where the action succeeds.
    pub open spec fn status_code(self) -> u16 {
        match self {
            ServeAction::Forbidden => 403,
            ServeAction::NotFound => 404,
            ServeAction::ListDirectory => 200,
            ServeAction::SendFile => 200,
        }
    }

    /// The HTTP status of the answer, where the action succeeds. One that
    /// fails on the way is answered with [`FAILURE_STATUS`].
    pub fn status(self) -> (code: u16)
        ensures
            code == self.status_code(),
    {
        match self {
            ServeAction::Forbidden => 403,
            ServeAction::NotFound => 404,
            ServeAction::ListDirectory => 200,
            ServeAction::SendFile => 200,
        }
    }
}

/// The HTTP status of an answer that failed while it was made.
pub const FAILURE_STATUS: u16 = 500;

/// Calls `Path::components` of std and says whether one of them is
/// `Component::ParentDir`. What counts as a separator depends on the
/// platform, so nothing is stated of the answer.
#[verifier::external_body]
fn has_parent_component(path: &str) -> bool {
    std::path::Path::new(path).components().any(|c| c == std::path::Component::ParentDir)
}

/// Calls `Path::parent` of std and returns the parent as text, empty where
/// it is not Unicode. What counts as a separator depends on the platform, so
/// nothing is stated of the answer.
#[verifier::external_body]
fn parent_of(path: &str) -> Option<String> {
    match std::path::Path::new(path).parent() {
        Some(parent) => Some(parent.to_str().unwrap_or("").to_string()),
        None => None,
    }
}

/// Calls `Path::join` of std and returns the joined path as text. What
/// separates the parts depends on the platform, so nothing is stated of the
/// answer.
#[verifier::external_body]
fn join_path(root: &str, relative: &str) -> String {
    std::path::Path::new(root).join(relative).to_string_lossy().into_owned()
}

/// A request resolved against the directory served.
#[derive(Debug, Clone, PartialEq, Eq)]
pub struct ServePlan {
    /// What was found out about the requested path.
    pub facts: PathFacts,
    /// What to do.
    pub action: ServeAction,
    /// The requested path, relative to the directory served.
    pub request_path: String,
    /// The file or directory that the request names.
    pub target: String,
}

/// The path that a request names, relative to the directory served: the
/// raw path without its leading slashes.
pub fn request_path(raw_path: &str) -> (path: &str)
    ensures
        path@ == without_leading(raw_path@, '/'),
{
    trim_start_matches(raw_path, '/')
}

/// Decides what to do with a request, given what the file system says of
/// its path.
pub fn serve_action(facts: PathFacts) -> (action: ServeAction)
    ensures
        action == ServeAction::for_facts(facts),
{
    if facts.climbs {
        ServeAction::Forbidden
    } else if !facts.exists {
        ServeAction::NotFound
    } else if facts.is_dir {
        ServeAction::ListDirectory
    } else {
        ServeAction::SendFile
    }
}

/// Resolves the request for `raw_path` against the directory `root`.
///
/// The path is looked up in the file system unless it climbs out of the
/// directory. Whatever is found there, the action is the one that
/// [`serve_action`] takes for it, and a path that is just the root is
/// looked up as the root itself.
pub fn serve_path(root: &str, raw_path: &str) -> (plan: ServePlan)
    ensures
        plan.request_path@ == without_leading(raw_path@, '/'),
        plan.action == ServeAction::for_facts(plan.facts),
        plan.facts.climbs ==> !plan.facts.exists,
        !plan.facts.exists ==> !plan.facts.is_dir,
        plan.request_path@.len() == 0 ==> plan.target@ == root@,
{
    let request_path = request_path(raw_path);
    let target = if request_path.unicode_len() == 0 {
        root.to_owned()
    } else {
        join_path(root, request_path)
    };
    let climbs = has_parent_component(request_path);
    let exists = !climbs && path_exists(target.as_str());
    let is_dir = exists && path_is_dir(target.as_str());
    let facts = PathFacts { climbs, exists, is_dir };
    let action = serve_action(facts);
    ServePlan { facts, action, request_path: request_path.to_owned(), target }
}

/// The list item that links to the parent directory. The root has none.
pub open spec fn parent_item(request_path: Seq<char>, parent: Option<Seq<char>>) -> Seq<char> {
    if request_path.len() == 0 {
        Seq::empty()
    } else {
        match parent {
            Some(parent) => {
                let link = without_trailing(parent, '/');
                if link.len() == 0 {
                    "<li><a href=\"/"@ + "\">../</a></li>"@
                } else {
                    "<li><a href=\"/"@ + link + "/"@ + "\">../</a></li>"@
                }
            },
            None => "<li><a href=\"/\">../</a></li>"@,
        }
    }
}

/// The address of an entry of the directory `prefix`: absolute, with one
/// slash between directory and name.
pub open spec fn entry_href(prefix: Seq<char>, name: Seq<char>) -> Seq<char> {
    let href = if prefix.len() == 0 {
        name
    } else {
        prefix + "/"@ + name
    };
    if href.len() > 0 && href.first() == '/' {
        href
    } else {
        "/"@ + href
    }
}

/// The list item of one entry.
pub open spec fn entry_item(prefix: Seq<char>, name: Seq<char>) -> Seq<char> {
    "<li><a href=\""@ + entry_href(prefix, name) + "\">"@ + name + "</a></li>"@
}

/// The list items of the entries, in order.
pub open spec fn entry_items(prefix: Seq<char>, names: Seq<Seq<char>>) -> Seq<char>
    decreases names.len(),
{
    if names.len() == 0 {
        Seq::empty()
    } else {
        entry_items(prefix, names.drop_last()) + entry_item(prefix, names.last())
    }
}

/// The page that lists the directory `request_path`, whose entries are
/// `names`, in that order.
pub open spec fn listing_page(
    request_path: Seq<char>,
    parent: Option<Seq<char>>,
    names: Seq<Seq<char>>,
) -> Seq<char> {
    "<html><body><h1>Index of "@ + "/"@ + request_path + "</h1><ul>"@ + parent_item(
        request_path,
        parent,
    ) + entry_items(without_trailing(request_path, '/'), names) + "</ul></body></html>"@
}

/// Appends the list item that links to the parent directory.
fn push_parent_item(html: &mut String, request_path: &str, parent: &Option<String>)
    ensures
        final(html)@ == old(html)@ + parent_item(request_path@, opt_text(*parent)),
{
    if request_path.unicode_len() == 0 {
        assert(html@ =~= old(html)@ + Seq::<char>::empty());
        return ;
    }
    match parent {
        Some(parent) => {
            let link = trim_end_matches(parent.as_str(), '/');
            html.append("<li><a href=\"/");
            if link.unicode_len() != 0 {
                html.append(link);
                html.append("/");
            }
            html.append("\">../</a></li>");
            assert(html@ =~= old(html)@ + parent_item(request_path@, opt_text(Some(*parent))));
        },
        None => {
            html.append("<li><a href=\"/\">../</a></li>");
        },
    }
}

/// Appends the list item of one entry.
fn push_entry_item(html: &mut String, prefix: &str, name: &str)
    ensures
        final(html)@ == old(html)@ + entry_item(prefix@, name@),
{
    let mut href = String::new();
    if prefix.unicode_len() == 0 {
        href.append(name);
        assert(href@ =~= name@);
    } else {
        href.append(prefix);
        href.append("/");
        href.append(name);
        assert(href@ =~= prefix@ + "/"@ + name@);
    }
    let absolute = href.as_str().unicode_len() > 0 && href.as_str().get_char(0) == '/';
    html.append("<li><a href=\"");
    if !absolute {
        html.append("/");
    }
    html.append(href.as_str());
    html.append("\">");
    html.append(name);
    html.append("</a></li>");
    assert(html@ =~= old(html)@ + entry_item(prefix@, name@));
}

/// Renders the page that lists a directory.
///
/// `request_path` is the directory's path relative to the one served,
/// `parent` its parent directory, if it has one, and `items` the names of
/// its entries, those of directories with a slash at the end. The entries
/// are listed in ascending order, whatever order they are given in.
pub fn render_listing(request_path: &str, parent: &Option<String>, items: Vec<String>) -> (html:
    String)
    ensures
        exists|sorted: Seq<Seq<char>>|
            {
                &&& ascending(sorted)
                &&& sorted.to_multiset() == texts(items@).to_multiset()
                &&& html@ == #[trigger] listing_page(request_path@, opt_text(*parent), sorted)
            },
{
    let mut items = items;
    sort_strings(&mut items);
    let ghost sorted = texts(items@);
    let mut html = String::new();
    html.append("<html><body><h1>Index of ");
    html.append("/");
    html.append(request_path);
    html.append("</h1><ul>");
    push_parent_item(&mut html, request_path, parent);
    let prefix = trim_end_matches(request_path, '/');
    let ghost head = html@;
    let mut i: usize = 0;
    while i < items.len()
        invariant
            i <= items@.len(),
            sorted == texts(items@),
            html@ == head + entry_items(prefix@, sorted.subrange(0, i as int)),
        decreases items@.len() - i,
    {
        push_entry_item(&mut html, prefix, items[i].as_str());
        proof {
            let longer = sorted.subrange(0, i + 1);
            assert(longer.drop_last() =~= sorted.subrange(0, i as int));
            assert(longer.last() == items@[i as int]@);
            assert(html@ =~= head + entry_items(prefix@, longer));
        }
        i += 1;
    }
    html.append("</ul></body></html>");
    proof {
        assert(sorted.subrange(0, sorted.len() as int) =~= sorted);
        assert(html@ =~= listing_page(request_path@, opt_text(*parent), sorted));
    }
    html
}

/// Renders the page that lists the directory `request_path`, whose entries
/// are `items`. The parent directory that the page links to is the one that
/// std's `Path::parent` finds; the root links to none.
pub fn render_directory_listing(request_path: &str, items: Vec<String>) -> (html: String)
    ensures
        exists|parent: Option<Seq<char>>, sorted: Seq<Seq<char>>|
            {
                &&& ascending(sorted)
                &&& sorted.to_multiset() == texts(items@).to_multiset()
                &&& html@ == #[trigger] listing_page(request_path@, parent, sorted)
            },
{
    let parent = if request_path.unicode_len() == 0 {
        None
    } else {
        parent_of(request_path)
    };
    let html = render_listing(request_path, &parent, items);
    proof {
        let sorted = choose|sorted: Seq<Seq<char>>|
            {
                &&& ascending(sorted)
                &&& sorted.to_multiset() == texts(items@).to_multiset()
                &&& html@ == #[trigger] listing_page(request_path@, opt_text(parent), sorted)
            };
        assert(html@ == listing_page(request_path@, opt_text(parent), sorted));
    }
    html
}

} // verus!
