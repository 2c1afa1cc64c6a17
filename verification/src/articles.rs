//! Articles and their labels: what the service sends, put together from the
//! rows of the store.

use vstd::prelude::*;

verus! {

/// A row of the articles table.
pub struct Article {
    pub id: String,
    pub title: String,
    pub body: String,
}

/// A row of the labels table: a label put on an article.
#[derive(Debug)]
pub struct Label {
    pub id: i32,
    pub name: String,
    pub article_id: String,
}

/// A row of the labels table before the store numbered it.
#[derive(Debug)]
pub struct NewLabel {
    pub name: String,
    pub article_id: String,
}

/// An article as it travels: with its labels' names, and with its number
/// once it has one.
pub struct ArticleDTO {
    pub id: Option<String>,
    pub title: String,
    pub body: String,
    pub labels: Vec<String>,
}

/// The names of the labels among `labels` that are put on the article
/// `article_id`, in their order.
pub open spec fn label_names(article_id: Seq<char>, labels: Seq<Label>) -> Seq<Seq<char>>
    decreases labels.len(),
{
    if labels.len() == 0 {
        Seq::empty()
    } else if labels.last().article_id@ == article_id {
        label_names(article_id, labels.drop_last()).push(labels.last().name@)
    } else {
        label_names(article_id, labels.drop_last())
    }
}

/// The texts of `names`.
pub open spec fn texts(names: Seq<String>) -> Seq<Seq<char>> {
    Seq::new(names.len(), |i: int| names[i]@)
}

/// `dto` is the article `article` with the labels that `labels` puts on it.
pub open spec fn presents(dto: ArticleDTO, article: Article, labels: Seq<Label>) -> bool {
    &&& dto.id matches Some(id) && id@ == article.id@
    &&& dto.title@ == article.title@
    &&& dto.body@ == article.body@
    &&& texts(dto.labels@) == label_names(article.id@, labels)
}

/// The names of the labels among `labels` that are put on the article
/// `article_id`.
pub fn labels_of(article_id: &String, labels: &Vec<Label>) -> (names: Vec<String>)
    ensures
        texts(names@) == label_names(article_id@, labels@),
{
    let mut names: Vec<String> = Vec::new();
    let mut i: usize = 0;
    assert(labels@.take(0int) =~= Seq::<Label>::empty());
    assert(texts(names@) =~= Seq::<Seq<char>>::empty());
    while i < labels.len()
        invariant
            i <= labels.len(),
            texts(names@) == label_names(article_id@, labels@.take(i as int)),
        decreases labels.len() - i,
    {
        proof {
            assert(labels@.take(i + 1).drop_last() =~= labels@.take(i as int));
            assert(labels@.take(i + 1).last() == labels@[i as int]);
        }
        if labels[i].article_id == *article_id {
            let ghost before = names@;
            names.push(labels[i].name.clone());
            assert(texts(names@) =~= texts(before).push(labels@[i as int].name@));
        }
        i += 1;
    }
    assert(labels@.take(i as int) =~= labels@);
    names
}

/// The article `article` as it travels, with the labels that `labels` puts
/// on it.
pub fn article_dto(article: &Article, labels: &Vec<Label>) -> (dto: ArticleDTO)
    ensures
        presents(dto, *article, labels@),
{
    ArticleDTO {
        id: Some(article.id.clone()),
        title: article.title.clone(),
        body: article.body.clone(),
        labels: labels_of(&article.id, labels),
    }
}

/// All articles as they travel, each with its labels out of `labels`.
pub fn get_articles(articles: &Vec<Article>, labels: &Vec<Label>) -> (res: Vec<ArticleDTO>)
    ensures
        res@.len() == articles@.len(),
        forall|i: int|
            0 <= i < articles@.len() ==> presents(#[trigger] res@[i], articles@[i], labels@),
{
    let mut res: Vec<ArticleDTO> = Vec::new();
    let mut i: usize = 0;
    while i < articles.len()
        invariant
            i <= articles.len(),
            res@.len() == i,
            forall|j: int| 0 <= j < i ==> presents(#[trigger] res@[j], articles@[j], labels@),
        decreases articles.len() - i,
    {
        res.push(article_dto(&articles[i], labels));
        i += 1;
    }
    res
}

/// The article that was looked up, as it travels, with its labels; nothing
/// if the store found no such article.
pub fn get_article(found: &Option<Article>, labels: &Vec<Label>) -> (r: Option<ArticleDTO>)
    ensures
        match *found {
            Some(article) => r matches Some(dto) && presents(dto, article, labels@),
            None => r is None,
        },
{
    match found {
        Some(article) => Some(article_dto(article, labels)),
        None => None,
    }
}

/// The rows to store for a new article under the number `id`: the article
/// itself, and one label row for each of its labels, in their order.
pub fn add_article(model: &ArticleDTO, id: String) -> (r: (Article, Vec<NewLabel>))
    ensures
        r.0.id@ == id@,
        r.0.title@ == model.title@,
        r.0.body@ == model.body@,
        r.1@.len() == model.labels@.len(),
        forall|i: int|
            0 <= i < model.labels@.len() ==> (#[trigger] r.1@[i]).name@ == model.labels@[i]@
                && r.1@[i].article_id@ == id@,
{
    let article = Article { id, title: model.title.clone(), body: model.body.clone() };
    let mut rows: Vec<NewLabel> = Vec::new();
    let mut i: usize = 0;
    while i < model.labels.len()
        invariant
            i <= model.labels.len(),
            rows@.len() == i,
            forall|j: int|
                0 <= j < i ==> (#[trigger] rows@[j]).name@ == model.labels@[j]@
                    && rows@[j].article_id@ == article.id@,
        decreases model.labels.len() - i,
    {
        rows.push(NewLabel { name: model.labels[i].clone(), article_id: article.id.clone() });
        i += 1;
    }
    (article, rows)
}

} // verus!
