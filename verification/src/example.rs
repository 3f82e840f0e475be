use vstd::prelude::*;

verus! {

/// The content capabilities this application can render, one variant per
/// example kind. A content factory resolves a route to one of these; the
/// host shell knows how to draw each.
#[derive(Clone, Copy, PartialEq, Eq, Structural, Debug)]
pub enum ContentKind {
    Chat,
}

/// One navigable example: a display name, the slug that appears in its
/// route, and the content it renders.
pub struct Example {
    pub name: String,
    pub slug: String,
    pub kind: ContentKind,
}

/// A sidebar category grouping examples.
pub struct Category {
    pub name: String,
    pub examples: Vec<Example>,
}

/// The mathematical value of an `Example`.
pub struct ExampleModel {
    pub name: Seq<char>,
    pub slug: Seq<char>,
    pub kind: ContentKind,
}

/// The mathematical value of a `Category`.
pub struct CategoryModel {
    pub name: Seq<char>,
    pub examples: Seq<ExampleModel>,
}

impl View for Example {
    type V = ExampleModel;

    open spec fn view(&self) -> ExampleModel {
        ExampleModel { name: self.name@, slug: self.slug@, kind: self.kind }
    }
}

impl View for Category {
    type V = CategoryModel;

    open spec fn view(&self) -> CategoryModel {
        CategoryModel {
            name: self.name@,
            examples: self.examples@.map_values(|e: Example| e@),
        }
    }
}

/// The views of a vector of categories.
pub open spec fn views_of_categories(cats: Seq<Category>) -> Seq<CategoryModel> {
    cats.map_values(|c: Category| c@)
}

impl Example {
    /// The content this example renders.
    pub fn get(&self) -> (kind: ContentKind)
        ensures
            kind == self.kind,
    {
        self.kind
    }
}

/// The first example with the given slug within one category's list.
pub open spec fn spec_find_in(exs: Seq<ExampleModel>, slug: Seq<char>) -> Option<ContentKind>
    decreases exs.len(),
{
    if exs.len() == 0 {
        None
    } else if exs[0].slug == slug {
        Some(exs[0].kind)
    } else {
        spec_find_in(exs.drop_first(), slug)
    }
}

/// The first example with the given slug, searching categories in order.
pub open spec fn spec_find_example(cats: Seq<CategoryModel>, slug: Seq<char>) -> Option<
    ContentKind,
>
    decreases cats.len(),
{
    if cats.len() == 0 {
        None
    } else {
        match spec_find_in(cats[0].examples, slug) {
            Some(kind) => Some(kind),
            None => spec_find_example(cats.drop_first(), slug),
        }
    }
}

fn find_in(exs: &Vec<Example>, slug: &String) -> (r: Option<ContentKind>)
    ensures
        r == spec_find_in(exs@.map_values(|e: Example| e@), slug@),
{
    let ghost ev = exs@.map_values(|e: Example| e@);
    let n = exs.len();
    let mut i: usize = 0;
    proof {
        assert(ev.skip(0) =~= ev);
    }
    while i < n
        invariant
            ev == exs@.map_values(|e: Example| e@),
            n == ev.len(),
            i <= n,
            spec_find_in(ev, slug@) == spec_find_in(ev.skip(i as int), slug@),
        decreases n - i,
    {
        proof {
            assert(ev.skip(i as int)[0] == ev[i as int]);
            assert(ev.skip(i as int).drop_first() =~= ev.skip(i + 1));
        }
        if exs[i].slug == *slug {
            return Some(exs[i].get());
        }
        i += 1;
    }
    proof {
        assert(ev.skip(n as int).len() == 0);
    }
    None
}

/// Find the content registered for a slug, searching categories and their
/// examples in registration order.
pub fn find_example(cats: &Vec<Category>, slug: &String) -> (r: Option<ContentKind>)
    ensures
        r == spec_find_example(views_of_categories(cats@), slug@),
{
    let ghost cv = views_of_categories(cats@);
    let n = cats.len();
    let mut i: usize = 0;
    proof {
        assert(cv.skip(0) =~= cv);
    }
    while i < n
        invariant
            cv == views_of_categories(cats@),
            n == cv.len(),
            i <= n,
            spec_find_example(cv, slug@) == spec_find_example(cv.skip(i as int), slug@),
        decreases n - i,
    {
        proof {
            assert(cv.skip(i as int)[0] == cv[i as int]);
            assert(cv.skip(i as int).drop_first() =~= cv.skip(i + 1));
        }
        let found = find_in(&cats[i].examples, slug);
        if let Some(kind) = found {
            return Some(kind);
        }
        i += 1;
    }
    proof {
        assert(cv.skip(n as int).len() == 0);
    }
    None
}

/// The registry this application ships with: a single category holding the
/// chat example.
pub open spec fn spec_default_registry() -> Seq<CategoryModel> {
    seq![
        CategoryModel {
            name: "Q&A Chatbot"@,
            examples: seq![
                ExampleModel { name: "Chat"@, slug: "chat"@, kind: ContentKind::Chat },
            ],
        },
    ]
}

/// Build the example registry. It is constructed once at startup and read
/// only from then on.
pub fn examples() -> (cats: Vec<Category>)
    ensures
        views_of_categories(cats@) == spec_default_registry(),
{
    let chat = Example {
        name: String::from_str("Chat"),
        slug: String::from_str("chat"),
        kind: ContentKind::Chat,
    };
    let mut exs: Vec<Example> = Vec::new();
    exs.push(chat);
    let category = Category { name: String::from_str("Q&A Chatbot"), examples: exs };
    let mut cats: Vec<Category> = Vec::new();
    cats.push(category);
    proof {
        assert(views_of_categories(cats@)[0].examples =~~= spec_default_registry()[0].examples);
        assert(views_of_categories(cats@) =~~= spec_default_registry());
    }
    cats
}

} // verus!
