//! Templates: the names that a manifest's templates may use, and the
//! renderer that expands them.

use vstd::prelude::*;
use crate::formula::{opt_text, opt_texts, text_pairs, Package, PackageView};
use crate::text::{chars_of, clone_texts, texts};

verus! {

/// What a name stands for in a template.
#[derive(Debug)]
pub enum Binding {
    /// A field that is not set.
    Absent,
    Text(String),
    List(Vec<String>),
    /// Names with what they stand for, reached by a dotted path. Where a
    /// name occurs twice, the later occurrence counts.
    Record(Vec<(String, Binding)>),
}

/// The mathematical value of a [`Binding`].
pub enum BindingView {
    Absent,
    Text(Seq<char>),
    List(Seq<Seq<char>>),
    Record(Map<Seq<char>, BindingView>),
}

/// The mathematical value of a binding.
pub open spec fn binding_view(b: Binding) -> BindingView
    decreases b, 0nat,
{
    match b {
        Binding::Absent => BindingView::Absent,
        Binding::Text(s) => BindingView::Text(s@),
        Binding::List(items) => BindingView::List(texts(items@)),
        Binding::Record(fields) => BindingView::Record(fields_view(fields, fields.len() as nat)),
    }
}

/// What the first `n` fields of a record stand for, by name.
pub open spec fn fields_view(fields: Vec<(String, Binding)>, n: nat) -> Map<Seq<char>, BindingView>
    decreases fields, n,
{
    if n == 0 || n > fields.len() {
        Map::empty()
    } else {
        fields_view(fields, (n - 1) as nat).insert(
            fields[n - 1].0@,
            binding_view(fields[n - 1].1),
        )
    }
}

impl View for Binding {
    type V = BindingView;

    open spec fn view(&self) -> BindingView {
        binding_view(*self)
    }
}

/// What a text stands for, and `Absent` where there is none.
pub open spec fn text_binding(o: Option<Seq<char>>) -> BindingView {
    match o {
        Some(s) => BindingView::Text(s),
        None => BindingView::Absent,
    }
}

/// What a list of texts stands for, and `Absent` where there is none.
pub open spec fn list_binding(o: Option<Seq<Seq<char>>>) -> BindingView {
    match o {
        Some(l) => BindingView::List(l),
        None => BindingView::Absent,
    }
}

/// The user's own names, each with its text, as far as the first `n` pairs go.
pub open spec fn pairs_map(pairs: Seq<(Seq<char>, Seq<char>)>, n: nat) -> Map<
    Seq<char>,
    BindingView,
>
    decreases n,
{
    if n == 0 || n > pairs.len() {
        Map::empty()
    } else {
        pairs_map(pairs, (n - 1) as nat).insert(pairs[n - 1].0, BindingView::Text(pairs[n - 1].1))
    }
}

/// The record of the user's own names.
pub open spec fn pairs_binding(o: Option<Seq<(Seq<char>, Seq<char>)>>) -> BindingView {
    match o {
        Some(pairs) => BindingView::Record(pairs_map(pairs, pairs.len())),
        None => BindingView::Absent,
    }
}

/// The record of a package: every field under its own name.
pub open spec fn package_binding(p: PackageView) -> BindingView {
    BindingView::Record(
        Map::empty().insert("name"@, BindingView::Text(p.name)).insert(
            "bin"@,
            BindingView::Text(p.bin),
        ).insert("repository"@, BindingView::Text(p.repository)).insert(
            "description"@,
            BindingView::Text(p.description),
        ).insert("version"@, text_binding(p.version)).insert(
            "versions"@,
            list_binding(p.versions),
        ).insert("authors"@, list_binding(p.authors)).insert(
            "keywords"@,
            list_binding(p.keywords),
        ).insert("license"@, text_binding(p.license)),
    )
}

/// The names that the templates of a manifest may use: `version`, the
/// fields of `package`, and the user's own names under `context`.
pub open spec fn template_context(
    version: Seq<char>,
    package: PackageView,
    context: Option<Seq<(Seq<char>, Seq<char>)>>,
) -> BindingView {
    BindingView::Record(
        Map::empty().insert("version"@, BindingView::Text(version)).insert(
            "package"@,
            package_binding(package),
        ).insert("context"@, pairs_binding(context)),
    )
}

/// A record with one field more holds what it held, and the new field.
pub proof fn lemma_fields_view_push(fields: Vec<(String, Binding)>, more: Vec<(String, Binding)>)
    requires
        more@.len() == fields@.len() + 1,
        more@.take(fields@.len() as int) == fields@,
    ensures
        fields_view(more, more@.len()) == fields_view(fields, fields@.len()).insert(
            more@.last().0@,
            more@.last().1@,
        ),
{
    assert(fields@.take(fields@.len() as int) =~= fields@);
    lemma_fields_view_agree(fields, more, fields@.len());
}

/// What the first fields of a record stand for depends on those fields alone.
proof fn lemma_fields_view_agree(
    a: Vec<(String, Binding)>,
    b: Vec<(String, Binding)>,
    n: nat,
)
    requires
        n <= a@.len(),
        n <= b@.len(),
        a@.take(n as int) == b@.take(n as int),
    ensures
        fields_view(a, n) == fields_view(b, n),
    decreases n,
{
    if n > 0 {
        assert(a@.take(n as int)[n - 1] == b@.take(n as int)[n - 1]);
        assert(a@.take((n - 1) as int) =~= a@.take(n as int).take((n - 1) as int));
        assert(b@.take((n - 1) as int) =~= b@.take(n as int).take((n - 1) as int));
        lemma_fields_view_agree(a, b, (n - 1) as nat);
    }
}

/// Adds a field to a record under construction.
fn put(fields: &mut Vec<(String, Binding)>, name: &str, value: Binding)
    ensures
        fields_view(*final(fields), final(fields)@.len()) == fields_view(
            *old(fields),
            old(fields)@.len(),
        ).insert(name@, value@),
        final(fields)@.len() == old(fields)@.len() + 1,
{
    let ghost before = *fields;
    fields.push((String::from_str(name), value));
    proof {
        assert(fields@.take(before@.len() as int) =~= before@);
        lemma_fields_view_push(before, *fields);
    }
}

fn bind_text(o: &Option<String>) -> (r: Binding)
    ensures
        r@ == text_binding(opt_text(*o)),
{
    match o {
        Some(s) => Binding::Text(s.clone()),
        None => Binding::Absent,
    }
}

fn bind_list(o: &Option<Vec<String>>) -> (r: Binding)
    ensures
        r@ == list_binding(opt_texts(*o)),
{
    match o {
        Some(l) => Binding::List(clone_texts(l)),
        None => Binding::Absent,
    }
}

fn bind_pairs(o: &Option<Vec<(String, String)>>) -> (r: Binding)
    ensures
        r@ == pairs_binding(
            match *o {
                Some(c) => Some(text_pairs(c@)),
                None => None,
            },
        ),
{
    match o {
        Some(pairs) => {
            let mut out: Vec<(String, Binding)> = Vec::new();
            let mut i: usize = 0;
            while i < pairs.len()
                invariant
                    i <= pairs.len(),
                    out@.len() == i,
                    fields_view(out, i as nat) == pairs_map(text_pairs(pairs@), i as nat),
                decreases pairs.len() - i,
            {
                put(&mut out, pairs[i].0.as_str(), Binding::Text(pairs[i].1.clone()));
                i += 1;
            }
            Binding::Record(out)
        },
        None => Binding::Absent,
    }
}

fn bind_package(p: &Package) -> (r: Binding)
    ensures
        r@ == package_binding(p@),
{
    let mut out: Vec<(String, Binding)> = Vec::new();
    put(&mut out, "name", Binding::Text(p.name.clone()));
    put(&mut out, "bin", Binding::Text(p.bin.clone()));
    put(&mut out, "repository", Binding::Text(p.repository.clone()));
    put(&mut out, "description", Binding::Text(p.description.clone()));
    put(&mut out, "version", bind_text(&p.version));
    put(&mut out, "versions", bind_list(&p.versions));
    put(&mut out, "authors", bind_list(&p.authors));
    put(&mut out, "keywords", bind_list(&p.keywords));
    put(&mut out, "license", bind_text(&p.license));
    Binding::Record(out)
}

/// Builds the names that the templates of a manifest may use.
pub fn context_for(version: &str, package: &Package, context: &Option<Vec<(String, String)>>) -> (r:
    Binding)
    ensures
        r@ == template_context(
            version@,
            package@,
            match *context {
                Some(c) => Some(text_pairs(c@)),
                None => None,
            },
        ),
{
    let mut out: Vec<(String, Binding)> = Vec::new();
    put(&mut out, "version", Binding::Text(String::from_str(version)));
    put(&mut out, "package", bind_package(package));
    put(&mut out, "context", bind_pairs(context));
    Binding::Record(out)
}

/// The renderer's account of why a template cannot be expanded.
#[verifier::external_type_specification]
#[verifier::external_body]
pub struct ExTemplateError(tinytemplate::error::Error);

/// The renderer's own tree of values.
#[verifier::external_type_specification]
#[verifier::external_body]
pub struct ExJsonValue(serde_json::Value);

/// What a plain template expands to over a context, and `None` where the
/// renderer fails to compile or to render it.
pub uninterp spec fn template_rendered(template: Seq<char>, context: BindingView) -> Option<
    Seq<char>,
>;

/// What a tree of the renderer holds: null as `Absent`, a string as a
/// text, an array of strings as a list, an object as a record.
pub uninterp spec fn json_contents(tree: serde_json::Value) -> BindingView;

/// Moves a binding into a `serde_json::Value`, variant by variant and
/// member by member. The fields of a record are put into the object one
/// after the other with `serde_json::Map::insert`, which replaces what a
/// name had before. The contract says that the tree holds what the
/// binding stands for.
#[verifier::external_body]
fn to_json(b: &Binding) -> (r: serde_json::Value)
    ensures
        json_contents(r) == b@,
{
    match b {
        Binding::Absent => serde_json::Value::Null,
        Binding::Text(s) => serde_json::Value::String(s.clone()),
        Binding::List(items) => serde_json::Value::Array(
            items.iter().map(|s| serde_json::Value::String(s.clone())).collect(),
        ),
        Binding::Record(fields) => {
            let mut object = serde_json::Map::new();
            for (name, value) in fields {
                object.insert(name.clone(), to_json(value));
            }
            serde_json::Value::Object(object)
        },
    }
}

/// Whether a comment tag or a block tag opens at place `i` of a template:
/// a brace that is followed by `#` or by another brace.
pub open spec fn opens_tag(t: Seq<char>, i: int) -> bool {
    t[i] == '{' && (t[i + 1] == '#' || t[i + 1] == '{')
}

/// Whether a template is a plain one: text and placeholders in single
/// braces, with no comment tag and no block tag, and not ending in a
/// backslash, which would escape what follows the end.
pub open spec fn is_plain(t: Seq<char>) -> bool {
    &&& forall|i: int| 0 <= i < t.len() - 1 ==> !opens_tag(t, i)
    &&& !(t.len() > 0 && t.last() == '\\')
}

/// Tells whether a template is a plain one.
pub fn is_plain_template(t: &str) -> (r: bool)
    ensures
        r == is_plain(t@),
{
    let chars = chars_of(t);
    let n = chars.len();
    if n == 0 {
        return true;
    }
    if chars[n - 1] == '\\' {
        return false;
    }
    let mut i: usize = 0;
    while i < n - 1
        invariant
            i < n,
            n == t@.len(),
            chars@ == t@,
            forall|k: int| 0 <= k < i ==> !opens_tag(t@, k),
        decreases n - i,
    {
        if chars[i] == '{' && (chars[i + 1] == '#' || chars[i + 1] == '{') {
            assert(opens_tag(t@, i as int));
            return false;
        }
        i += 1;
    }
    true
}

/// What the two templates of a target expand to over a context: each is
/// expanded by itself, the URL first. Only plain templates are expanded;
/// any other template fails, as a template does that the renderer cannot
/// compile or render.
pub open spec fn expanded(
    url_template: Seq<char>,
    path_template: Seq<char>,
    context: BindingView,
) -> Option<(Seq<char>, Seq<char>)> {
    if is_plain(url_template) && is_plain(path_template) {
        match (
            template_rendered(url_template, context),
            template_rendered(path_template, context),
        ) {
            (Some(url), Some(path)) => Some((url, path)),
            _ => None,
        }
    } else {
        None
    }
}

/// Calls `TinyTemplate::add_template` and `TinyTemplate::render` for one
/// template on a renderer of its own. The contract names the outcome,
/// which depends on the template and on what the context holds. The
/// template must be plain: on a comment tag, on some block tags and on a
/// text that ends in a backslash the renderer's compiler slices out of
/// bounds.
#[verifier::external_body]
fn render_one(template: &str, context: &serde_json::Value) -> (r: Result<
    String,
    tinytemplate::error::Error,
>)
    requires
        is_plain(template@),
    ensures
        match r {
            Ok(text) => template_rendered(template@, json_contents(*context)) == Some(text@),
            Err(_) => template_rendered(template@, json_contents(*context)) is None,
        },
{
    let mut renderer = tinytemplate::TinyTemplate::new();
    renderer.add_template("template", template)?;
    renderer.render("template", context)
}

/// Expands the URL template and the path template of a target. A
/// template that is not plain is not handed to the renderer and fails.
pub fn render(url_template: &str, path_template: &str, context: &Binding) -> (r: Option<
    (String, String),
>)
    ensures
        match r {
            Some(pair) => expanded(url_template@, path_template@, context@) == Some(
                (pair.0@, pair.1@),
            ),
            None => expanded(url_template@, path_template@, context@) is None,
        },
{
    if !is_plain_template(url_template) || !is_plain_template(path_template) {
        return None;
    }
    let json = to_json(context);
    let url = match render_one(url_template, &json) {
        Ok(url) => url,
        Err(_) => {
            return None;
        },
    };
    match render_one(path_template, &json) {
        Ok(path) => Some((url, path)),
        Err(_) => None,
    }
}

/// The expanded URL of a target does not depend on its path template, as
/// long as that template expands at all.
pub proof fn lemma_url_is_independent_of_path(
    url_template: Seq<char>,
    path_a: Seq<char>,
    path_b: Seq<char>,
    context: BindingView,
)
    requires
        expanded(url_template, path_a, context) is Some,
        expanded(url_template, path_b, context) is Some,
    ensures
        ({
            let a = expanded(url_template, path_a, context)->Some_0;
            let b = expanded(url_template, path_b, context)->Some_0;
            a.0 == b.0
        }),
{
}

} // verus!
