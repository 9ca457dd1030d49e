use usage_bot::fetch::FetchError;
use usage_bot::handler::{complete, handle, Command, PendingFetch, Step};
use usage_bot::report::UsageFigures;
use usage_bot::store::ChatUrlStore;

const REPORT: &str = "已使用流量/总流量：5.000GiB / 10.000GiB\n比例：50%\n每月流量重置日期：15日";

fn half_used() -> UsageFigures {
    UsageFigures {
        used_gib: String::from("5.000"),
        limit_gib: String::from("10.000"),
        percent: String::from("50"),
        reset_day_of_month: 15,
    }
}

/// Answers a command as the bot does, with `fetch` in place of the
/// network. Returns the reply and the URLs that were fetched.
fn run(
    store: &mut ChatUrlStore,
    chat_id: i64,
    cmd: Command,
    fetch: fn(&str) -> Result<UsageFigures, FetchError>,
) -> (String, Vec<String>) {
    let mut fetched_urls = Vec::new();
    let reply = match handle(store, chat_id, cmd) {
        Step::Reply(text) => text,
        Step::Fetch(pending) => {
            fetched_urls.push(pending.url.clone());
            let fetched = fetch(&pending.url);
            complete(store, chat_id, pending, &fetched)
        }
    };
    (reply, fetched_urls)
}

fn succeed(_url: &str) -> Result<UsageFigures, FetchError> {
    Ok(half_used())
}

fn refuse(_url: &str) -> Result<UsageFigures, FetchError> {
    Err(FetchError::Transport(String::from("connection refused")))
}

fn time_out(_url: &str) -> Result<UsageFigures, FetchError> {
    Err(FetchError::Timeout)
}

#[test]
fn usage_asks_for_its_url() {
    let store = ChatUrlStore::new();
    let step = handle(&store, 1, Command::Usage(String::from("http://example.com/u")));
    assert_eq!(
        step,
        Step::Fetch(PendingFetch { url: String::from("http://example.com/u"), remember: true })
    );
}

#[test]
fn current_without_history() {
    let mut store = ChatUrlStore::new();
    let (reply, fetched) = run(&mut store, 1, Command::Current, succeed);
    assert_eq!(reply, "没有历史URL可用");
    assert_eq!(fetched.len(), 0);
    assert_eq!(store.get(1), None);
}

#[test]
fn current_without_history_in_this_chat() {
    let mut store = ChatUrlStore::new();
    store.put(2, String::from("http://example.com/other"));
    assert_eq!(handle(&store, 1, Command::Current), Step::Reply(String::from("没有历史URL可用")));
}

#[test]
fn usage_that_succeeds_is_remembered() {
    let mut store = ChatUrlStore::new();
    let (reply, fetched) =
        run(&mut store, 9, Command::Usage(String::from("http://example.com/u")), succeed);
    assert_eq!(reply, REPORT);
    assert_eq!(fetched, vec![String::from("http://example.com/u")]);
    assert_eq!(store.get(9), Some(String::from("http://example.com/u")));
}

#[test]
fn current_fetches_the_remembered_url() {
    let mut store = ChatUrlStore::new();
    run(&mut store, 9, Command::Usage(String::from("http://example.com/u")), succeed);
    let step = handle(&store, 9, Command::Current);
    assert_eq!(
        step,
        Step::Fetch(PendingFetch { url: String::from("http://example.com/u"), remember: false })
    );
    let (reply, fetched) = run(&mut store, 9, Command::Current, succeed);
    assert_eq!(reply, REPORT);
    assert_eq!(fetched, vec![String::from("http://example.com/u")]);
}

#[test]
fn failed_usage_is_not_remembered() {
    let mut store = ChatUrlStore::new();
    let (reply, fetched) =
        run(&mut store, 3, Command::Usage(String::from("http://down.example/")), refuse);
    assert_eq!(reply, "获取流量信息时发生错误：connection refused");
    assert_eq!(fetched.len(), 1);
    assert_eq!(store.get(3), None);
    let (reply, fetched) = run(&mut store, 3, Command::Current, succeed);
    assert_eq!(reply, "没有历史URL可用");
    assert_eq!(fetched.len(), 0);
}

#[test]
fn failed_usage_keeps_the_earlier_url() {
    let mut store = ChatUrlStore::new();
    run(&mut store, 3, Command::Usage(String::from("http://up.example/")), succeed);
    let (reply, _) = run(&mut store, 3, Command::Usage(String::from("http://down.example/")), time_out);
    assert_eq!(reply, "获取流量信息超时");
    assert_eq!(store.get(3), Some(String::from("http://up.example/")));
}

#[test]
fn later_usage_replaces_the_url() {
    let mut store = ChatUrlStore::new();
    run(&mut store, 3, Command::Usage(String::from("http://a.example/")), succeed);
    run(&mut store, 3, Command::Usage(String::from("http://b.example/")), succeed);
    assert_eq!(store.get(3), Some(String::from("http://b.example/")));
}

#[test]
fn current_writes_nothing() {
    let mut store = ChatUrlStore::new();
    store.put(4, String::from("http://a.example/"));
    let pending = PendingFetch { url: String::from("http://elsewhere.example/"), remember: false };
    let reply = complete(&mut store, 4, pending, &Ok(half_used()));
    assert_eq!(reply, REPORT);
    assert_eq!(store.get(4), Some(String::from("http://a.example/")));
}

#[test]
fn failed_current_reports_the_error() {
    let mut store = ChatUrlStore::new();
    store.put(4, String::from("http://a.example/"));
    let (reply, fetched) = run(&mut store, 4, Command::Current, time_out);
    assert_eq!(reply, "获取流量信息超时");
    assert_eq!(fetched, vec![String::from("http://a.example/")]);
    assert_eq!(store.get(4), Some(String::from("http://a.example/")));
}
