//! The exposure surface: the registry of shared content and the pages that
//! show it.
//!
//! The registry is an ordered, append-only list. The host keeps one registry
//! behind a lock, appends what arrives on the registration queue and renders
//! the pages on request; serving the files themselves is the host's business.

use crate::output::{OutputTarget, OutputTargetView};
use crate::text::{copy_option_text, decimal, option_text, push_decimal};
use vstd::prelude::*;
use vstd::string::*;

verus! {

/// How many registrations may wait to be taken into the registry.
pub const REGISTRATION_QUEUE_CAPACITY: usize = 100;

/// The page served at the root: a welcome and a link to the listing.
pub const INDEX_PAGE: &'static str = "<!DOCTYPE html>
    <html>
    <head>
        <meta charset=\"UTF-8\">
        <meta name=\"viewport\" content=\"width=device-width, initial-scale=1.0\">
        <title>MIGA IPFS 内容共享</title>
        <style>
            body { font-family: Arial, sans-serif; max-width: 800px; margin: 0 auto; padding: 20px; }
            h1 { color: #333; }
            .info { background-color: #f0f0f0; padding: 15px; border-radius: 5px; }
            a { color: #0066cc; text-decoration: none; }
            a:hover { text-decoration: underline; }
        </style>
    </head>
    <body>
        <h1>MIGA IPFS 内容共享</h1>
        <div class=\"info\">
            <p>欢迎使用 MIGA IPFS 内容共享服务!</p>
            <p>这个服务允许您从此节点下载 IPFS 内容。</p>
            <p><a href=\"/list\">查看可用内容列表</a></p>
        </div>
    </body>
    </html>
    ";

/// The listing shown while nothing is shared.
pub const EMPTY_LIST_PAGE: &'static str = "<h1>暂无可共享内容</h1><p>当前没有可用的内容。</p><p><a href='/'>返回首页</a></p>";

/// The listing page up to its heading.
pub const LIST_HEAD: &'static str = "
    <!DOCTYPE html>
    <html>
    <head>
        <meta charset=\"UTF-8\">
        <meta name=\"viewport\" content=\"width=device-width, initial-scale=1.0\">
        <title>MIGA IPFS 内容列表</title>
        <style>
            body { font-family: Arial, sans-serif; max-width: 800px; margin: 0 auto; padding: 20px; }
            h1 { color: #333; }
            .content-list { margin-top: 20px; }
            .content-item { background-color: #f0f0f0; padding: 15px; border-radius: 5px; margin-bottom: 10px; }
            .content-title { font-weight: bold; margin-bottom: 5px; }
            .content-cid { font-family: monospace; color: #666; }
            .content-description { margin-top: 5px; }
            .download-link { display: inline-block; background-color: #0066cc; color: white; padding: 5px 10px; 
                            border-radius: 3px; text-decoration: none; margin-top: 10px; }
            .download-link:hover { background-color: #0055aa; }
            .back-link { margin-top: 20px; display: block; }
        </style>
    </head>
    <body>
        <h1>可用 IPFS 内容列表</h1>
    ";

/// Opens the block of entries.
pub const LIST_OPEN: &'static str = "<div class=\"content-list\">";

/// Opens an entry; the position of the entry follows.
pub const ITEM_OPEN: &'static str = "
            <div class=\"content-item\">
                <div class=\"content-title\">内容 #";

/// Closes the title of an entry and opens its identifier.
pub const ITEM_CID: &'static str = "</div>
                <div class=\"content-cid\">CID: ";

/// Closes the identifier of an entry; the description, if any, follows.
pub const ITEM_CID_CLOSE: &'static str = "</div>
                ";

/// Opens the file name of an entry.
pub const ITEM_FILE: &'static str = "
                <div>文件名: ";

/// Closes the file name of an entry and opens its download link.
pub const ITEM_LINK: &'static str = "</div>
                <a href=\"/files/";

/// Closes the download link and the entry.
pub const ITEM_CLOSE: &'static str = "\" class=\"download-link\">下载</a>
            </div>
        ";

/// Opens the description of an entry.
pub const DESCRIPTION_OPEN: &'static str = "<div class=\"content-description\">描述: ";

/// Closes the description of an entry.
pub const DESCRIPTION_CLOSE: &'static str = "</div>";

/// Closes the block of entries.
pub const LIST_CLOSE: &'static str = "</div>";

/// The link from the listing back to the root page.
pub const BACK_LINK: &'static str = "<a href=\"/\" class=\"back-link\">返回首页</a>";

/// Closes the listing page.
pub const LIST_TAIL: &'static str = "</body></html>";

/// Shown for an entry whose path has no file name.
pub const UNKNOWN_FILE: &'static str = "unknown";

/// Content that can be shared.
#[derive(Debug, PartialEq, Eq)]
pub struct SharedContent {
    /// The identifier of the content.
    pub cid: String,
    /// Where the content is stored.
    pub path: OutputTarget,
    /// What the content is, in the words of whoever shares it.
    pub description: Option<String>,
}

/// The mathematical content of a [`SharedContent`].
pub struct SharedContentView {
    pub cid: Seq<char>,
    pub path: OutputTargetView,
    pub description: Option<Seq<char>>,
}

impl View for SharedContent {
    type V = SharedContentView;

    open spec fn view(&self) -> SharedContentView {
        SharedContentView {
            cid: self.cid@,
            path: self.path@,
            description: option_text(self.description),
        }
    }
}

impl Clone for SharedContent {
    fn clone(&self) -> (r: Self)
        ensures
            r@ == self@,
    {
        SharedContent {
            cid: self.cid.clone(),
            path: self.path.clone(),
            description: copy_option_text(&self.description),
        }
    }
}

/// A registry entry: the content and the file name it is listed under, if
/// its path has one.
pub struct ListedView {
    pub content: SharedContentView,
    pub file_name: Option<Seq<char>>,
}

/// The mathematical content of a [`WebServerState`].
pub struct RegistryView {
    /// The entries, in the order of their registration.
    pub entries: Seq<ListedView>,
    /// The directory that files are served from.
    pub serve_dir: Seq<char>,
}

#[derive(Debug, PartialEq, Eq)]
struct Listed {
    content: SharedContent,
    file_name: Option<String>,
}

impl View for Listed {
    type V = ListedView;

    closed spec fn view(&self) -> ListedView {
        ListedView { content: self.content@, file_name: option_text(self.file_name) }
    }
}

/// The state of the exposure surface: what is shared, and from where.
#[derive(Debug, PartialEq, Eq)]
pub struct WebServerState {
    shared_contents: Vec<Listed>,
    serve_dir: String,
}

impl View for WebServerState {
    type V = RegistryView;

    closed spec fn view(&self) -> RegistryView {
        RegistryView {
            entries: self.shared_contents@.map_values(|l: Listed| l@),
            serve_dir: self.serve_dir@,
        }
    }
}

/// The registry that serves from `serve_dir` and shares nothing yet.
pub open spec fn empty_registry(serve_dir: Seq<char>) -> RegistryView {
    RegistryView { entries: Seq::empty(), serve_dir }
}

/// The registry after `entry` was registered: `entry` is its last entry, and
/// nothing else has changed.
pub open spec fn registered(state: RegistryView, entry: ListedView) -> RegistryView {
    RegistryView { entries: state.entries.push(entry), serve_dir: state.serve_dir }
}

/// The registry after `submissions` were registered one by one, in order.
pub open spec fn registered_all(state: RegistryView, submissions: Seq<ListedView>) -> RegistryView
    decreases submissions.len(),
{
    if submissions.len() == 0 {
        state
    } else {
        registered(registered_all(state, submissions.drop_last()), submissions.last())
    }
}

/// The name shown for an entry's file.
pub open spec fn shown_file_name(file_name: Option<Seq<char>>) -> Seq<char> {
    match file_name {
        Some(name) => name,
        None => UNKNOWN_FILE@,
    }
}

/// The part of an entry that shows its description; empty without one.
pub open spec fn description_html(description: Option<Seq<char>>) -> Seq<char> {
    match description {
        Some(text) => DESCRIPTION_OPEN@ + text + DESCRIPTION_CLOSE@,
        None => Seq::empty(),
    }
}

/// The listing of one entry at `position`, counted from one: its position,
/// its identifier, its description if it has one, its file name and the link
/// under which the file is downloaded.
pub open spec fn item_html(position: nat, entry: ListedView) -> Seq<char> {
    ITEM_OPEN@ + decimal(position) + ITEM_CID@ + entry.content.cid + ITEM_CID_CLOSE@
        + description_html(entry.content.description) + ITEM_FILE@ + shown_file_name(
        entry.file_name,
    ) + ITEM_LINK@ + shown_file_name(entry.file_name) + ITEM_CLOSE@
}

/// The listings of `entries`, one after the other in their order.
pub open spec fn items_html(entries: Seq<ListedView>) -> Seq<char>
    decreases entries.len(),
{
    if entries.len() == 0 {
        Seq::empty()
    } else {
        items_html(entries.drop_last()) + item_html(entries.len(), entries.last())
    }
}

/// The listing page for `entries`.
pub open spec fn list_page_html(entries: Seq<ListedView>) -> Seq<char> {
    if entries.len() == 0 {
        EMPTY_LIST_PAGE@
    } else {
        LIST_HEAD@ + LIST_OPEN@ + items_html(entries) + LIST_CLOSE@ + BACK_LINK@ + LIST_TAIL@
    }
}

/// The final component of `path`, as `std::path::Path::file_name` finds it.
/// What counts as a component depends on the platform, so nothing is claimed
/// of the result.
#[verifier::external_body]
fn file_name_of(path: &str) -> (r: Option<String>) {
    std::path::Path::new(path).file_name().and_then(|name| name.to_str()).map(
        |name| name.to_string(),
    )
}

/// The root page.
pub fn index_page() -> (page: String)
    ensures
        page@ == INDEX_PAGE@,
{
    String::from_str(INDEX_PAGE)
}

fn render_item(position: usize, entry: &Listed) -> (html: String)
    ensures
        html@ == item_html(position as nat, entry@),
{
    let shown: &str = match &entry.file_name {
        Some(name) => name.as_str(),
        None => UNKNOWN_FILE,
    };
    let mut html = String::from_str(ITEM_OPEN);
    push_decimal(&mut html, position as u64);
    html.append(ITEM_CID);
    html.append(entry.content.cid.as_str());
    html.append(ITEM_CID_CLOSE);
    match &entry.content.description {
        Some(text) => {
            html.append(DESCRIPTION_OPEN);
            html.append(text.as_str());
            html.append(DESCRIPTION_CLOSE);
        },
        None => {},
    }
    html.append(ITEM_FILE);
    html.append(shown);
    html.append(ITEM_LINK);
    html.append(shown);
    html.append(ITEM_CLOSE);
    assert(html@ =~= item_html(position as nat, entry@));
    html
}

impl WebServerState {
    /// A registry that serves from `serve_dir` and shares nothing yet.
    pub fn new(serve_dir: String) -> (state: WebServerState)
        ensures
            state@ == empty_registry(serve_dir@),
    {
        let state = WebServerState { shared_contents: Vec::new(), serve_dir };
        assert(state@.entries =~= Seq::empty());
        state
    }

    /// Appends `content`, listed under `file_name`.
    pub fn register_named(&mut self, content: SharedContent, file_name: Option<String>)
        ensures
            final(self)@ == registered(
                old(self)@,
                ListedView { content: content@, file_name: option_text(file_name) },
            ),
    {
        self.shared_contents.push(Listed { content, file_name });
        assert(self@.entries =~= old(self)@.entries.push(
            ListedView { content: content@, file_name: option_text(file_name) },
        ));
    }

    /// Appends `content`, listed under the file name of its path. The entry
    /// becomes the last one; the entries before it stay as they are.
    pub fn register(&mut self, content: SharedContent)
        ensures
            final(self)@.entries.len() == old(self)@.entries.len() + 1,
            final(self)@.entries.drop_last() == old(self)@.entries,
            final(self)@.entries.last().content == content@,
            final(self)@.serve_dir == old(self)@.serve_dir,
    {
        let file_name = file_name_of(content.path.file.as_str());
        self.register_named(content, file_name);
        assert(self@.entries.drop_last() =~= old(self)@.entries);
    }

    /// How many entries are registered.
    pub fn len(&self) -> (n: usize)
        ensures
            n == self@.entries.len(),
    {
        self.shared_contents.len()
    }

    /// The content registered at `index`, counted from zero.
    pub fn get(&self, index: usize) -> (r: Option<&SharedContent>)
        ensures
            match r {
                Some(content) => index < self@.entries.len() && content@
                    == self@.entries[index as int].content,
                None => index >= self@.entries.len(),
            },
    {
        if index < self.shared_contents.len() {
            Some(&self.shared_contents[index].content)
        } else {
            None
        }
    }

    /// The directory that files are served from.
    pub fn serve_dir(&self) -> (r: &String)
        ensures
            r@ == self@.serve_dir,
    {
        &self.serve_dir
    }

    /// The listing page: every entry in the order of registration, or the
    /// notice that nothing is shared.
    pub fn list_page(&self) -> (page: String)
        ensures
            page@ == list_page_html(self@.entries),
    {
        let count = self.shared_contents.len();
        if count == 0 {
            return String::from_str(EMPTY_LIST_PAGE);
        }
        let mut page = String::from_str(LIST_HEAD);
        page.append(LIST_OPEN);
        let mut i: usize = 0;
        assert(self@.entries.take(0) =~= Seq::empty());
        while i < count
            invariant
                i <= count,
                count == self.shared_contents.len(),
                count == self@.entries.len(),
                page@ == LIST_HEAD@ + LIST_OPEN@ + items_html(self@.entries.take(i as int)),
            decreases count - i,
        {
            let item = render_item(i + 1, &self.shared_contents[i]);
            page.append(item.as_str());
            proof {
                let next = self@.entries.take(i as int + 1);
                assert(next.drop_last() =~= self@.entries.take(i as int));
                assert(next.last() == self.shared_contents[i as int]@);
                assert(page@ =~= LIST_HEAD@ + LIST_OPEN@ + items_html(next));
            }
            i += 1;
        }
        assert(self@.entries.take(count as int) =~= self@.entries);
        page.append(LIST_CLOSE);
        page.append(BACK_LINK);
        page.append(LIST_TAIL);
        assert(page@ =~= list_page_html(self@.entries));
        page
    }
}

/// Registering a sequence of submissions appends exactly that sequence:
/// nothing is dropped, nothing is added and nothing changes place.
pub proof fn lemma_registration_appends(state: RegistryView, submissions: Seq<ListedView>)
    ensures
        registered_all(state, submissions).entries == state.entries + submissions,
        registered_all(state, submissions).serve_dir == state.serve_dir,
    decreases submissions.len(),
{
    if submissions.len() == 0 {
        assert(state.entries + submissions =~= state.entries);
    } else {
        lemma_registration_appends(state, submissions.drop_last());
        assert((state.entries + submissions.drop_last()).push(submissions.last())
            =~= state.entries + submissions);
    }
}

/// The listing order is the registration order: after the first `n` of any
/// sequence of submissions to an empty registry, the registry holds exactly
/// those `n` entries in the order in which they were submitted, and the
/// listing page is the page of those `n`.
pub proof fn lemma_listing_keeps_registration_order(
    serve_dir: Seq<char>,
    submissions: Seq<ListedView>,
    n: nat,
)
    requires
        n <= submissions.len(),
    ensures
        registered_all(empty_registry(serve_dir), submissions.take(n as int)).entries
            == submissions.take(n as int),
        registered_all(empty_registry(serve_dir), submissions.take(n as int)).entries.len() == n,
        forall|i: int|
            0 <= i < n ==> registered_all(
                empty_registry(serve_dir),
                submissions.take(n as int),
            ).entries[i] == submissions[i],
{
    lemma_registration_appends(empty_registry(serve_dir), submissions.take(n as int));
    assert(Seq::<ListedView>::empty() + submissions.take(n as int) =~= submissions.take(n as int));
}

/// Entries are listed in order: the listing of the first `n` entries is the
/// beginning of the listing of all of them, and each entry is numbered by its
/// place.
pub proof fn lemma_items_listed_in_order(entries: Seq<ListedView>, n: nat)
    requires
        n <= entries.len(),
    ensures
        items_html(entries.take(n as int)).is_prefix_of(items_html(entries)),
        n < entries.len() ==> items_html(entries.take(n as int + 1)) == items_html(
            entries.take(n as int),
        ) + item_html(n + 1, entries[n as int]),
    decreases entries.len() - n,
{
    if n == entries.len() {
        assert(entries.take(n as int) =~= entries);
    } else {
        let next = entries.take(n as int + 1);
        assert(next.drop_last() =~= entries.take(n as int));
        assert(next.last() == entries[n as int]);
        lemma_items_listed_in_order(entries, n + 1);
    }
}

} // verus!
