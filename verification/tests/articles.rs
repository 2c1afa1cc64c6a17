use incubator::articles::{
    add_article, article_dto, get_article, get_articles, labels_of, Article, ArticleDTO, Label,
};

fn article(id: &str, title: &str) -> Article {
    Article { id: id.to_owned(), title: title.to_owned(), body: format!("{} body", title) }
}

fn label(id: i32, name: &str, article_id: &str) -> Label {
    Label { id, name: name.to_owned(), article_id: article_id.to_owned() }
}

#[test]
fn articles_travel_with_their_labels() {
    let labels = vec![
        label(1, "rust", "a"),
        label(2, "news", "b"),
        label(3, "verus", "a"),
        label(4, "rust", "b"),
    ];
    assert_eq!(labels_of(&"a".to_owned(), &labels), vec!["rust", "verus"]);
    assert_eq!(labels_of(&"c".to_owned(), &labels), Vec::<String>::new());
    let dto = article_dto(&article("b", "t"), &labels);
    assert_eq!(dto.id.as_deref(), Some("b"));
    assert_eq!((dto.title.as_str(), dto.body.as_str()), ("t", "t body"));
    assert_eq!(dto.labels, vec!["news", "rust"]);
    let all = get_articles(&vec![article("a", "x"), article("c", "y"), article("b", "z")], &labels);
    assert_eq!(all.len(), 3);
    assert_eq!(all[0].labels, vec!["rust", "verus"]);
    assert_eq!(all[1].labels, Vec::<String>::new());
    assert_eq!(all[2].title, "z");
    assert!(get_article(&None, &labels).is_none());
    let one = get_article(&Some(article("a", "x")), &labels).unwrap();
    assert_eq!(one.labels, vec!["rust", "verus"]);
}

#[test]
fn new_article_is_stored_with_a_row_for_each_label() {
    let model = ArticleDTO {
        id: None,
        title: "t".to_owned(),
        body: "b".to_owned(),
        labels: vec!["x".to_owned(), "y".to_owned()],
    };
    let (row, labels) = add_article(&model, "id-1".to_owned());
    assert_eq!((row.id.as_str(), row.title.as_str(), row.body.as_str()), ("id-1", "t", "b"));
    let rows: Vec<(&str, &str)> =
        labels.iter().map(|l| (l.name.as_str(), l.article_id.as_str())).collect();
    assert_eq!(rows, vec![("x", "id-1"), ("y", "id-1")]);
}
