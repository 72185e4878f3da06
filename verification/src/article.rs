//! The article record shown as one news card.

use vstd::prelude::*;

verus! {

/// One headline: its title, its description and the address of the full text.
#[derive(Debug, PartialEq, Eq)]
pub struct NewsCardData {
    pub title: String,
    pub desc: String,
    pub url: String,
}

/// The mathematical value of a [`NewsCardData`]: its three texts as character sequences.
pub struct ArticleView {
    pub title: Seq<char>,
    pub desc: Seq<char>,
    pub url: Seq<char>,
}

impl View for NewsCardData {
    type V = ArticleView;

    open spec fn view(&self) -> ArticleView {
        ArticleView { title: self.title@, desc: self.desc@, url: self.url@ }
    }
}

impl Clone for NewsCardData {
    /// A copy with the same three texts.
    fn clone(&self) -> (copy: NewsCardData)
        ensures
            copy == *self,
    {
        NewsCardData {
            title: self.title.clone(),
            desc: self.desc.clone(),
            url: self.url.clone(),
        }
    }
}

/// The values of a list of articles, in the order of the list.
pub open spec fn article_views(articles: Seq<NewsCardData>) -> Seq<ArticleView> {
    articles.map_values(|a: NewsCardData| a@)
}

/// The value of what one receive yielded.
pub open spec fn delivery_view(delivery: Option<NewsCardData>) -> Option<ArticleView> {
    match delivery {
        Some(article) => Some(article@),
        None => None,
    }
}

/// Appending an article to a list appends its value to the list's values.
pub proof fn lemma_article_views_push(articles: Seq<NewsCardData>, article: NewsCardData)
    ensures
        article_views(articles.push(article)) == article_views(articles).push(article@),
{
    assert(article_views(articles.push(article)) =~= article_views(articles).push(article@));
}

} // verus!
