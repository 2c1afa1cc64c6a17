use incubator::config::{app_conf_path, config_path, Config, Level};
use incubator::matrix::{add_byte, sum};
use incubator::mutation::{MutMeSomehow, MyMutable};
use incubator::settings::{result_filename, Settings};

#[test]
fn configuration_has_its_defaults() {
    let c = Config::default();
    assert!(!c.mode.debug);
    assert_eq!(c.server.exernal_url, "http://127.0.0.1");
    assert_eq!(
        (c.server.http_port, c.server.grpc_port, c.server.healthz_port, c.server.metrics_port),
        (8081, 8082, 10025, 9199)
    );
    assert_eq!((c.db.mysql.host.as_str(), c.db.mysql.port), ("127.0.0.1", 3306));
    assert_eq!(c.db.mysql.dating, "default");
    assert_eq!((c.db.mysql.user.as_str(), c.db.mysql.pass.as_str()), ("root", ""));
    assert_eq!((c.db.mysql.connections.max_idle, c.db.mysql.connections.max_open), (30, 30));
    assert_eq!(c.log.app.level, Level::info);
    assert_eq!(
        (
            c.background.watchdog.period_secs,
            c.background.watchdog.limit,
            c.background.watchdog.lock_timeout_secs
        ),
        (5, 10, 4)
    );
}

#[test]
fn configuration_file_is_chosen_by_rank() {
    let s = |t: &str| Some(t.to_owned());
    assert_eq!(config_path(s("a.toml"), s("e.toml")), "a.toml");
    assert_eq!(config_path(None, s("e.toml")), "e.toml");
    assert_eq!(config_path(s("a.toml"), None), "a.toml");
    assert_eq!(config_path(None, None), "config.toml");
    assert_eq!(app_conf_path(s("a"), s("e")), "a");
    assert_eq!(app_conf_path(None, s("e")), "e");
    assert_eq!(app_conf_path(None, None), "/etc/app/app.conf");
}

#[test]
fn settings_choose_the_thread_count() {
    let asked = Settings { max_threads: Some(3), file: "links.txt".to_owned() };
    assert_eq!(asked.get_thread_count(), 3);
    assert_eq!(asked.thread_count_for(8), 3);
    assert_eq!(asked.get_filename(), "links.txt");
    let free = Settings { max_threads: None, file: String::new() };
    assert_eq!(free.thread_count_for(8), 8);
    assert!(free.get_thread_count() >= 1);
    assert_eq!(free.get_filename(), "");
}

#[test]
fn pages_are_saved_under_plain_names() {
    assert_eq!(
        result_filename("https://example.com/a/b?c=d:e \r"),
        Some("results/example.com_a_b_c=d_e.html".to_owned())
    );
    assert_eq!(result_filename("https://"), Some("results/.html".to_owned()));
    assert_eq!(result_filename("https:/"), None);
    assert_eq!(result_filename(""), None);
    assert_eq!(result_filename("12345678 x  "), Some("results/ x.html".to_owned()));
}

#[test]
fn values_change_each_in_its_way() {
    let mut m = MyMutable { field: 12 };
    m.mut_me_somehow();
    assert_eq!(m, MyMutable { field: 100 });
    let mut v = vec![10, 20, 30];
    v.mut_me_somehow();
    assert_eq!(v, vec![10, 20]);
    let mut e: Vec<u8> = vec![];
    e.mut_me_somehow();
    assert_eq!(e, Vec::<u8>::new());
    let mut s = String::from("my string");
    s.mut_me_somehow();
    assert_eq!(s, "my stringaaaaa");
    let mut b = Box::new(12);
    b.mut_me_somehow();
    assert_eq!(*b, 0);
}

#[test]
fn bytes_are_added_up() {
    assert_eq!(sum(&[]), 0);
    assert_eq!(sum(&[1, 2, 3, 250]), 256);
    let block = [255u8; 4096];
    assert_eq!(sum(&block), 255 * 4096);
    let mixed: Vec<u8> = (0..10000u32).map(|i| (i % 251) as u8).collect();
    assert_eq!(sum(&mixed), mixed.iter().map(|b| *b as u64).sum::<u64>());
    assert_eq!(add_byte(u64::MAX - 255, 255), u64::MAX);
}
