use blog::error::BlogError;
use blog::model::{Article, ArticleMetaData, Author, World};

fn author() -> Author<'static> {
    Author { name: "Ada", email: Some("ada@example.org") }
}

fn article(title: &'static str, slug: &str) -> Article<'static> {
    Article { title, author: author(), published: 1, body: String::new(), slug: slug.to_string() }
}

fn meta(
    title: &'static str,
    template: &'static str,
    slug: Option<&'static str>,
) -> ArticleMetaData<'static> {
    ArticleMetaData { title, author: author(), published: 1_560_000_000, template, slug }
}

#[test]
fn find_by_slug_finds_the_article() {
    let world = World { articles: vec![article("One", "one"), article("Two", "two")] };
    let found = world.find_by_slug("two").unwrap();
    assert_eq!(found.title, "Two");
}

#[test]
fn find_by_slug_takes_the_first_of_equals() {
    let world = World { articles: vec![article("One", "same"), article("Two", "same")] };
    assert_eq!(world.find_by_slug("same").unwrap().title, "One");
}

#[test]
fn find_by_slug_reports_missing_content() {
    let world = World { articles: vec![article("One", "one")] };
    match world.find_by_slug("three") {
        Err(BlogError::MissingContent(detail)) => {
            assert_eq!(detail, "no article with that name found")
        }
        other => panic!("unexpected outcome: {:?}", other),
    }
}

#[test]
fn find_by_slug_in_an_empty_world() {
    let world = World { articles: Vec::new() };
    assert!(matches!(world.find_by_slug(""), Err(BlogError::MissingContent(_))));
}

#[test]
fn find_by_slug_is_exact() {
    let world = World { articles: vec![article("One", "one")] };
    assert!(world.find_by_slug("One").is_err());
    assert!(world.find_by_slug("on").is_err());
    assert!(world.find_by_slug("one ").is_err());
}

#[test]
fn world_holds_every_article_in_order() {
    let metadata = vec![
        meta("Hello World", "first.html", None),
        meta("Second Post", "second.html", Some("number-two")),
    ];
    let bodies = vec!["<p>first</p>".to_string(), "<p>2</p>".to_string()];
    let world = World::new(&metadata, &bodies).unwrap();
    assert_eq!(world.articles.len(), 2);
    assert_eq!(world.articles[0].title, "Hello World");
    assert_eq!(world.articles[0].slug, "hello-world");
    assert_eq!(world.articles[0].body, "<p>first</p>");
    assert_eq!(world.articles[0].published, 1_560_000_000);
    assert_eq!(world.articles[0].author.name, "Ada");
    assert_eq!(world.articles[0].author.email, Some("ada@example.org"));
    assert_eq!(world.articles[1].title, "Second Post");
    assert_eq!(world.articles[1].slug, "number-two");
    assert_eq!(world.articles[1].body, "<p>2</p>");
    assert_eq!(world.find_by_slug("hello-world").unwrap().title, "Hello World");
    assert_eq!(bodies.len(), 2);
}

#[test]
fn world_of_nothing_is_empty() {
    let world = World::new(&Vec::new(), &Vec::new()).unwrap();
    assert!(world.articles.is_empty());
}

#[test]
fn world_with_every_slug_written_down_is_made() {
    let metadata = vec![
        meta("A", "a.html", Some("a")),
        meta("B", "b.html", Some("")),
        meta("C", "c.html", Some("a")),
    ];
    let bodies = vec![String::new(), "b".to_string(), "c".to_string()];
    let world = World::new(&metadata, &bodies).unwrap();
    let slugs: Vec<&str> = world.articles.iter().map(|article| article.slug.as_str()).collect();
    assert_eq!(slugs, vec!["a", "", "a"]);
    let found: Vec<&str> = world.articles.iter().map(|article| article.body.as_str()).collect();
    assert_eq!(found, vec!["", "b", "c"]);
    assert_eq!(world.find_by_slug("a").unwrap().title, "A");
}

#[test]
fn slug_is_made_from_the_title_when_none_is_written() {
    assert_eq!(meta("Rust & Verus: 1st Steps!", "first.html", None).slug().unwrap(), "rust-verus-1st-steps");
    assert_eq!(meta("Ignored", "first.html", Some("kept as is")).slug().unwrap(), "kept as is");
}

#[test]
fn template_name_is_below_articles() {
    assert_eq!(meta("A", "first.html", None).template_name(), "articles/first.html");
}

#[test]
fn article_takes_over_the_description() {
    let description = meta("Title", "first.html", Some("title"));
    let made = description.article("<p>body</p>".to_string(), "title".to_string());
    assert_eq!(made.title, "Title");
    assert_eq!(made.published, 1_560_000_000);
    assert_eq!(made.body, "<p>body</p>");
    assert_eq!(made.slug, "title");
}
