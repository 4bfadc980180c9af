//! The articles of the blog and the collection that holds them.

use crate::error::BlogError;
use tera::{Context, Tera};
use vstd::prelude::*;
use vstd::string::StringExecFns;

verus! {

/// Who wrote an article.
#[derive(Clone, Copy, Debug)]
pub struct Author<'a> {
    pub name: &'a str,
    pub email: Option<&'a str>,
}

/// An article, ready to be shown.
#[derive(Debug)]
pub struct Article<'a> {
    pub title: &'a str,
    pub author: Author<'a>,
    pub published: u64,
    pub body: String,
    pub slug: String,
}

/// What is written down about an article before it is rendered.
#[derive(Debug)]
pub struct ArticleMetaData<'a> {
    pub title: &'a str,
    pub author: Author<'a>,
    pub published: u64,
    pub template: &'a str,
    pub slug: Option<&'a str>,
}

/// All articles, in the order in which they were described.
pub struct World<'a> {
    pub articles: Vec<Article<'a>>,
}

/// `tera::Error`, carried from a template to where it is put into words.
#[verifier::external_type_specification]
#[verifier::external_body]
pub struct ExTeraError(tera::Error);

/// The slug that tera's `slugify` filter makes of a title.
pub uninterp spec fn slug_of(title: Seq<char>) -> Seq<char>;

/// `Tera::one_off` on the template `{{ title | slugify }}`, without escaping:
/// when it succeeds, the result is the slug of the title.
#[verifier::external_body]
fn slugify_title(title: &str) -> (out: Result<String, tera::Error>)
    ensures
        out matches Ok(slug) ==> slug@ == slug_of(title@),
{
    let mut context = Context::new();
    context.insert("title", title);
    Tera::one_off("{{ title | slugify }}", &context, false)
}

/// The text of a template error, as `Display` prints it.
#[verifier::external_body]
fn template_error_text(error: &tera::Error) -> String {
    format!("{}", error)
}

impl<'a> ArticleMetaData<'a> {
    /// The slug under which the article is found: the one written down, or
    /// else the one made from its title.
    pub open spec fn spec_slug(self) -> Seq<char> {
        match self.slug {
            Some(slug) => slug@,
            None => slug_of(self.title@),
        }
    }

    /// The name of the template that holds the article's body.
    pub open spec fn spec_template_name(self) -> Seq<char> {
        "articles/"@ + self.template@
    }

    /// Whether `article` is this description with a body and a slug.
    pub open spec fn describes(self, article: Article<'a>) -> bool {
        &&& article.title == self.title
        &&& article.author == self.author
        &&& article.published == self.published
        &&& article.slug@ == self.spec_slug()
    }

    /// The name of the template that holds the article's body.
    pub fn template_name(&self) -> (name: String)
        ensures
            name@ == self.spec_template_name(),
    {
        String::from_str("articles/").concat(self.template)
    }

    /// Puts the article together from its rendered body and its slug.
    pub fn article(&self, body: String, slug: String) -> (article: Article<'a>)
        ensures
            article.title == self.title,
            article.author == self.author,
            article.published == self.published,
            article.body == body,
            article.slug == slug,
    {
        Article { title: self.title, author: self.author, published: self.published, body, slug }
    }

    /// The article's slug. Only making one from the title can fail.
    pub fn slug(&self) -> (out: Result<String, BlogError>)
        ensures
            match out {
                Ok(slug) => slug@ == self.spec_slug(),
                Err(error) => self.slug is None && error is TemplateError,
            },
    {
        match self.slug {
            Some(slug) => Ok(String::from_str(slug)),
            None => match slugify_title(self.title) {
                Ok(slug) => Ok(slug),
                Err(error) => Err(BlogError::TemplateError(template_error_text(&error))),
            },
        }
    }
}

/// The detail of the error for a slug that no article has.
pub open spec fn no_such_article() -> Seq<char> {
    "no article with that name found"@
}

impl<'a> World<'a> {
    /// Whether some article has the slug `slug`.
    pub open spec fn has(self, slug: Seq<char>) -> bool {
        exists|i: int| 0 <= i < self.articles@.len() && self.articles@[i].slug@ == slug
    }

    /// Whether the article at position `i` is the first with the slug `slug`.
    pub open spec fn is_first(self, i: int, slug: Seq<char>) -> bool {
        &&& 0 <= i < self.articles@.len()
        &&& self.articles@[i].slug@ == slug
        &&& forall|j: int| 0 <= j < i ==> self.articles@[j].slug@ != slug
    }

    /// Whether `articles` are the articles that `metadata` describes, one
    /// for one.
    pub open spec fn described_by(
        articles: Seq<Article<'a>>,
        metadata: Seq<ArticleMetaData<'a>>,
    ) -> bool {
        &&& articles.len() == metadata.len()
        &&& forall|i: int| 0 <= i < metadata.len() ==> (#[trigger] metadata[i]).describes(articles[i])
    }

    /// Whether every article of `metadata` has its slug written down, so that
    /// none has to be made from a title.
    pub open spec fn all_slugs_given(metadata: Seq<ArticleMetaData<'a>>) -> bool {
        forall|i: int| 0 <= i < metadata.len() ==> (#[trigger] metadata[i]).slug is Some
    }

    /// Puts together every article that `metadata` describes, in order, each
    /// with the body that stands at its place in `bodies`. The first title
    /// that cannot be made into a slug ends the attempt; where every slug is
    /// written down there is nothing that can fail.
    pub fn new(metadata: &Vec<ArticleMetaData<'a>>, bodies: &Vec<String>) -> (out: Result<
        World<'a>,
        BlogError,
    >)
        requires
            bodies@.len() == metadata@.len(),
        ensures
            match out {
                Ok(world) => {
                    &&& Self::described_by(world.articles@, metadata@)
                    &&& forall|i: int|
                        0 <= i < metadata@.len() ==> (#[trigger] world.articles@[i]).body@
                            == bodies@[i]@
                },
                Err(error) => {
                    &&& error is TemplateError
                    &&& !Self::all_slugs_given(metadata@)
                },
            },
            Self::all_slugs_given(metadata@) ==> out is Ok,
    {
        let mut articles: Vec<Article<'a>> = Vec::new();
        let mut i: usize = 0;
        while i < metadata.len()
            invariant
                i <= metadata.len(),
                bodies@.len() == metadata@.len(),
                Self::described_by(articles@, metadata@.take(i as int)),
                forall|j: int| 0 <= j < i ==> (#[trigger] articles@[j]).body@ == bodies@[j]@,
            decreases metadata.len() - i,
        {
            let meta = &metadata[i];
            let slug = match meta.slug() {
                Ok(slug) => slug,
                Err(error) => {
                    assert(metadata@[i as int].slug is None);
                    return Err(error);
                },
            };
            articles.push(meta.article(bodies[i].clone(), slug));
            i += 1;
        }
        assert(metadata@.take(i as int) =~= metadata@);
        Ok(World { articles })
    }

    /// The first article with the slug `slug`.
    pub fn find_by_slug(&'a self, slug: &str) -> (out: Result<&'a Article<'a>, BlogError>)
        ensures
            match out {
                Ok(article) => exists|i: int|
                    self.is_first(i, slug@) && *article == self.articles@[i],
                Err(error) => {
                    &&& !self.has(slug@)
                    &&& error is MissingContent
                    &&& error.detail() == no_such_article()
                },
            },
    {
        let wanted = String::from_str(slug);
        let mut i: usize = 0;
        while i < self.articles.len()
            invariant
                i <= self.articles.len(),
                wanted@ == slug@,
                forall|j: int| 0 <= j < i ==> self.articles@[j].slug@ != slug@,
            decreases self.articles.len() - i,
        {
            if self.articles[i].slug == wanted {
                assert(self.is_first(i as int, slug@));
                return Ok(&self.articles[i]);
            }
            i += 1;
        }
        Err(BlogError::MissingContent(String::from_str("no article with that name found")))
    }
}

} // verus!
