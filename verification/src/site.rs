use vstd::prelude::*;
use vstd::string::StringExecFns;
use crate::text::{decimal, push_decimal};
use crate::datetime::utc_now;

verus! {

broadcast use vstd::string::group_string_axioms;

/// The folder that holds the authors' published pages.
pub open spec fn site_root() -> Seq<char> {
    "./web/cn.dev/usr/share/nginx/html/index-and-homes/root/"@
}

fn site_root_text() -> (root: String)
    ensures
        root@ == site_root(),
{
    String::from_str("./web/cn.dev/usr/share/nginx/html/index-and-homes/root/")
}

/// The folder of an author's post pages, by the author's id.
pub open spec fn author_folder_spec(author_id: i32) -> Seq<char> {
    site_root() + decimal(author_id as int)
}

/// The folder of an author's post pages, by the author's id.
pub fn author_folder(author_id: i32) -> (path: String)
    ensures
        path@ == author_folder_spec(author_id),
{
    let mut path = site_root_text();
    push_decimal(&mut path, author_id as i64);
    path
}

/// The path of an entry under the root, by its name (such as an author's nick).
pub open spec fn under_root_spec(name: Seq<char>) -> Seq<char> {
    site_root() + name
}

/// The path of an entry under the root by its name (an author's folder by nick).
pub fn under_root(name: &str) -> (path: String)
    ensures
        path@ == under_root_spec(name@),
{
    let mut path = site_root_text();
    path.append(name);
    path
}

/// The path of an entry under the root by its name and `.html` (a home page by nick).
pub fn page_under_root(name: &str) -> (path: String)
    ensures
        path@ == under_root_spec(name@) + ".html"@,
{
    let mut path = site_root_text();
    path.append(name);
    path.append(".html");
    path
}

/// The home page of an author, by id.
pub open spec fn home_page_spec(author_id: i32) -> Seq<char> {
    site_root() + decimal(author_id as int) + ".html"@
}

/// The home page of an author, by id.
pub fn home_page(author_id: i32) -> (path: String)
    ensures
        path@ == home_page_spec(author_id),
{
    let mut path = site_root_text();
    push_decimal(&mut path, author_id as i64);
    path.append(".html");
    path
}

/// The page of a post in its author's folder, by the post's page name (its id or a
/// sharing path).
pub open spec fn post_page_spec(author_id: i32, page_name: Seq<char>) -> Seq<char> {
    author_folder_spec(author_id) + "/"@ + page_name + ".html"@
}

/// The page of a post in its author's folder, by a page name.
pub fn post_page(author_id: i32, page_name: &str) -> (path: String)
    ensures
        path@ == post_page_spec(author_id, page_name@),
{
    let mut path = author_folder(author_id);
    path.append("/");
    path.append(page_name);
    path.append(".html");
    path
}

/// The page of a post in its author's folder, by the post's id.
pub fn post_page_by_id(author_id: i32, post_id: i32) -> (path: String)
    ensures
        path@ == post_page_spec(author_id, decimal(post_id as int)),
{
    let mut path = author_folder(author_id);
    path.append("/");
    push_decimal(&mut path, post_id as i64);
    path.append(".html");
    path
}

/// What a link made next to its target points at: `./` and the target's name.
pub open spec fn link_target_spec(name: Seq<char>) -> Seq<char> {
    "./"@ + name
}

/// The target of a link to an entry named by an id, with a suffix (empty or `.html`).
pub fn link_to_id(id: i32, suffix: &str) -> (target: String)
    ensures
        target@ == link_target_spec(decimal(id as int) + suffix@),
{
    let mut target = String::from_str("./");
    push_decimal(&mut target, id as i64);
    target.append(suffix);
    target
}

/// The folder of the images of a post.
pub open spec fn post_images_folder_spec(user_id: i32, post_id: i32) -> Seq<char> {
    "./web/sololo.cn/usr/share/nginx/html/cndev/_post_images/"@ + decimal(user_id as int) + "/"@
        + decimal(post_id as int)
}

/// The folder of the images of a post.
pub fn post_images_folder(user_id: i32, post_id: i32) -> (path: String)
    ensures
        path@ == post_images_folder_spec(user_id, post_id),
{
    let mut path = String::from_str("./web/sololo.cn/usr/share/nginx/html/cndev/_post_images/");
    push_decimal(&mut path, user_id as i64);
    path.append("/");
    push_decimal(&mut path, post_id as i64);
    path
}

/// The file name of an uploaded image: the time of the upload in seconds and `.png`.
pub fn image_file_name(uploaded_at: i64) -> (name: String)
    ensures
        name@ == decimal(uploaded_at as int) + ".png"@,
{
    let mut name = String::new();
    push_decimal(&mut name, uploaded_at);
    name.append(".png");
    name
}

/// The file name of an image uploaded now: the current time in seconds and `.png`.
pub fn uploaded_image_file_name() -> (name: String)
    ensures
        exists|t: i64| name@ == #[trigger] decimal(t as int) + ".png"@,
{
    let now = utc_now();
    image_file_name(now.seconds)
}

/// The name by which an uploaded image is known: `<user>/<post>/<file>`.
pub fn image_public_name(user_id: i32, post_id: i32, file_name: &str) -> (name: String)
    ensures
        name@ == decimal(user_id as int) + "/"@ + decimal(post_id as int) + "/"@ + file_name@,
{
    let mut name = String::new();
    push_decimal(&mut name, user_id as i64);
    name.append("/");
    push_decimal(&mut name, post_id as i64);
    name.append("/");
    name.append(file_name);
    name
}

/// A file in a folder: the folder, `/` and the file name.
pub fn in_folder(folder: &str, file_name: &str) -> (path: String)
    ensures
        path@ == folder@ + "/"@ + file_name@,
{
    let mut path = folder.to_owned();
    path.append("/");
    path.append(file_name);
    path
}

} // verus!

verus! {

/// Whether an author's pages also get links under the author's nick: only when the nick
/// is not empty.
pub fn nick_links_wanted(nick: &str) -> (wanted: bool)
    ensures
        wanted == (nick@.len() > 0),
{
    !nick.is_empty()
}

} // verus!
