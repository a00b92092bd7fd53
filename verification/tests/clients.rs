use feed_relay::{
    default_thread_id, Action, Adapters, DeliveryTarget, Entry, Event, HttpError, Json, Markup,
    MatrixClient, Method, MinifluxClient, Model, Request, Response, SummaryInput, TelegramClient,
};

fn pair(name: &str, value: &str) -> (String, String) {
    (name.to_string(), value.to_string())
}

fn miniflux() -> MinifluxClient {
    MinifluxClient::new("feeds.example.org".to_string(), "secret".to_string())
}

fn matrix() -> MatrixClient {
    MatrixClient::new("matrix.example.org".to_string(), "tok".to_string(), "!news room".to_string())
}

fn telegram_client() -> TelegramClient {
    TelegramClient::new("123:abc".to_string(), "-1001".to_string(), "42".to_string())
}

fn model() -> Model {
    Model::new(
        "https://llm.example.org/v1/chat/completions".to_string(),
        "key".to_string(),
        "reader".to_string(),
        "2".to_string(),
        "You are an editor.".to_string(),
        "Summarize these.".to_string(),
        512,
    )
}

fn input() -> SummaryInput {
    SummaryInput {
        url: "u1".to_string(),
        title: "A".to_string(),
        feed_title: "F".to_string(),
        published_at: "today".to_string(),
        author: "Ann".to_string(),
        resume: "body".to_string(),
    }
}

fn response(status: u16, body: &str) -> Response {
    Response { status, body: body.to_string() }
}

fn feed_request(method: Method, url: &str, query: Vec<(String, String)>) -> Request {
    Request {
        method,
        url: url.to_string(),
        headers: vec![pair("X-Auth-Token", "secret")],
        query,
        body: None,
    }
}

#[test]
fn read_entries() {
    let client = miniflux();
    assert_eq!(client.url, "feeds.example.org");
    assert_eq!(client.token, "secret");
    assert_eq!(
        client.get_entries(None),
        feed_request(
            Method::Get,
            "https://feeds.example.org/v1/entries",
            vec![pair("status", "unread")]
        )
    );
    let body = "{\"total\":1,\"entries\":[{\"id\":7,\"title\":\"A\",\"url\":\"u1\",\
                \"content\":\"c\",\"author\":\"Ann\",\"feed\":{\"title\":\"F\"},\
                \"published_at\":\"today\"}]}";
    let entries = MinifluxClient::read_entries(&response(200, body));
    assert!(entries.is_ok());
    let expected = Entry {
        id: 7,
        title: "A".to_string(),
        url: "u1".to_string(),
        content: "c".to_string(),
        author: "Ann".to_string(),
        feed_title: "F".to_string(),
        published_at: "today".to_string(),
    };
    assert_eq!(entries, Ok(vec![expected]));
}

#[test]
fn read_categories() {
    let client = miniflux();
    assert_eq!(
        client.get_categories(),
        feed_request(Method::Get, "https://feeds.example.org/v1/categories", vec![])
    );
    let categories =
        MinifluxClient::read_categories(&response(200, "[{\"id\":1,\"title\":\"All\"}]"));
    assert!(categories.is_ok());
    let expected = Json::Object(vec![
        ("id".to_string(), Json::Number(Some(1))),
        ("title".to_string(), Json::Text("All".to_string())),
    ]);
    assert_eq!(categories, Ok(vec![expected]));
}

#[test]
fn read_category_entries() {
    let client = miniflux();
    assert_eq!(
        client.get_category_entries(12),
        feed_request(
            Method::Get,
            "https://feeds.example.org/v1/categories/12/entries",
            vec![pair("status", "unread")]
        )
    );
    assert_eq!(
        client.get_category_entries(-3).url,
        "https://feeds.example.org/v1/categories/-3/entries"
    );
    let entries = MinifluxClient::read_entries(&response(200, "{\"entries\":[]}"));
    assert!(entries.is_ok());
    assert_eq!(entries, Ok(vec![]));
}

#[test]
fn the_listing_can_be_limited() {
    assert_eq!(
        miniflux().get_entries(Some(25)),
        feed_request(
            Method::Get,
            "https://feeds.example.org/v1/entries",
            vec![pair("status", "unread"), pair("limit", "25")]
        )
    );
}

#[test]
fn the_feeds_are_refreshed_with_a_put() {
    assert_eq!(
        miniflux().refresh_all_feeds(),
        feed_request(Method::Put, "https://feeds.example.org/v1/feeds/refresh", vec![])
    );
}

#[test]
fn the_full_content_is_asked_for_by_identifier() {
    assert_eq!(
        miniflux().get_content(1234),
        feed_request(
            Method::Get,
            "https://feeds.example.org/v1/entries/1234/fetch-content",
            vec![]
        )
    );
}

#[test]
fn entries_are_marked_as_read_exactly_as_named() {
    let expected = Request {
        method: Method::Put,
        url: "https://feeds.example.org/v1/entries".to_string(),
        headers: vec![pair("X-Auth-Token", "secret"), pair("Content-Type", "application/json")],
        query: vec![],
        body: Some("{\"entry_ids\":[3,1,2],\"status\":\"read\"}".to_string()),
    };
    assert_eq!(miniflux().mark_as_read_some(vec![3, 1, 2]), expected);
    let one = miniflux().mark_as_read(9);
    assert_eq!(one.body, Some("{\"entry_ids\":[9],\"status\":\"read\"}".to_string()));
    assert_eq!(one.url, expected.url);
    assert_eq!(one.method, Method::Put);
    let none = miniflux().mark_as_read_some(vec![]);
    assert_eq!(none.body, Some("{\"entry_ids\":[],\"status\":\"read\"}".to_string()));
    let largest = miniflux().mark_as_read(u64::MAX);
    assert_eq!(
        largest.body,
        Some("{\"entry_ids\":[18446744073709551615],\"status\":\"read\"}".to_string())
    );
}

#[test]
fn a_rejected_listing_keeps_status_and_body() {
    assert_eq!(
        MinifluxClient::read_entries(&response(401, "{\"error_message\":\"Access Unauthorized\"}")),
        Err(HttpError::Rejected {
            status: 401,
            body: "{\"error_message\":\"Access Unauthorized\"}".to_string()
        })
    );
    assert_eq!(
        MinifluxClient::read_entries(&response(500, "{\"entries\":[]}")),
        Err(HttpError::Rejected { status: 500, body: "{\"entries\":[]}".to_string() })
    );
}

#[test]
fn a_listing_without_entries_is_unreadable() {
    for body in ["", "oops", "{}", "{\"entries\":7}", "[]"] {
        assert_eq!(
            MinifluxClient::read_entries(&response(200, body)),
            Err(HttpError::Unreadable { body: body.to_string() })
        );
    }
}

#[test]
fn the_full_content_is_read_from_the_body() {
    assert_eq!(
        MinifluxClient::read_content(&response(200, "{\"content\":\"<p>long</p>\"}")),
        Ok("<p>long</p>".to_string())
    );
    assert_eq!(
        MinifluxClient::read_content(&response(200, "{\"content\":3}")),
        Err(HttpError::Unreadable { body: "{\"content\":3}".to_string() })
    );
    assert_eq!(
        MinifluxClient::read_content(&response(404, "{\"content\":\"x\"}")),
        Err(HttpError::Rejected { status: 404, body: "{\"content\":\"x\"}".to_string() })
    );
}

#[test]
fn categories_that_are_no_list_are_unreadable() {
    assert_eq!(
        MinifluxClient::read_categories(&response(200, "{\"id\":1}")),
        Err(HttpError::Unreadable { body: "{\"id\":1}".to_string() })
    );
    assert_eq!(
        MinifluxClient::read_categories(&response(503, "[]")),
        Err(HttpError::Rejected { status: 503, body: "[]".to_string() })
    );
}

#[test]
fn a_request_is_done_when_the_status_says_so() {
    assert_eq!(MinifluxClient::read_done(&response(204, "")), Ok(()));
    assert_eq!(MinifluxClient::read_done(&response(200, "anything")), Ok(()));
    assert_eq!(MinifluxClient::read_done(&response(299, "")), Ok(()));
    assert_eq!(
        MinifluxClient::read_done(&response(300, "moved")),
        Err(HttpError::Rejected { status: 300, body: "moved".to_string() })
    );
    assert_eq!(
        MinifluxClient::read_done(&response(199, "")),
        Err(HttpError::Rejected { status: 199, body: String::new() })
    );
}

#[test]
fn success_is_a_status_from_200_to_299() {
    assert!(response(200, "").succeeded());
    assert!(response(299, "").succeeded());
    assert!(!response(199, "").succeeded());
    assert!(!response(300, "").succeeded());
    assert!(!response(404, "").succeeded());
    assert_eq!(response(200, "ok").accept(), Ok("ok".to_string()));
    assert_eq!(
        response(403, "no").accept(),
        Err(HttpError::Rejected { status: 403, body: "no".to_string() })
    );
}

#[test]
fn post() {
    let request = matrix().post("Hola mundo", "1714400000.5");
    let expected = Request {
        method: Method::Put,
        url: "https://matrix.example.org/_matrix/client/v3/rooms/%21news%20room:matrix.example.org\
              /send/m.room.message/1714400000.5"
            .to_string(),
        headers: vec![
            pair("Content-type", "application/json"),
            pair("Authorization", "Bearer tok"),
        ],
        query: vec![],
        body: Some(
            "{\"body\":\"Hola mundo\",\"format\":\"org.matrix.custom.html\",\
             \"formatted_body\":\"Hola mundo\",\"msgtype\":\"m.text\"}"
                .to_string(),
        ),
    };
    assert_eq!(request, expected);
    let message = "<h3>Ejemplo</h3><details><summary>Organizadores del festival destrozados\
                   </summary><p>Una rampa de coche mat\u{f3} a 11 personas en un festival de \
                   Vancouver, dejando a la comunidad en profundo dolor</p></details>";
    let request = matrix().post(message, "2");
    assert_eq!(
        request.body,
        Some(format!(
            "{{\"body\":\"{}\",\"format\":\"org.matrix.custom.html\",\
             \"formatted_body\":\"{}\",\"msgtype\":\"m.text\"}}",
            message, message
        ))
    );
    assert!(response(200, "{\"event_id\":\"$1\"}").accept().is_ok());
}

#[test]
fn a_message_is_escaped_in_its_body() {
    let request = matrix().post("<a href=\"u\">t</a>\n\\", "2");
    let body = Json::parse(&request.body.unwrap()).unwrap();
    assert_eq!(body.get("body"), Some(&Json::Text("<a href=\"u\">t</a>\n\\".to_string())));
    assert_eq!(body.get("formatted_body"), body.get("body"));
    assert_eq!(body.get("msgtype"), Some(&Json::Text("m.text".to_string())));
    assert_eq!(body.get("format"), Some(&Json::Text("org.matrix.custom.html".to_string())));
}

#[test]
fn the_room_is_percent_encoded_in_the_address() {
    let client = MatrixClient::new("s".to_string(), "t".to_string(), "a/b:c\u{e9}~_.-Z9".to_string());
    assert_eq!(
        client.post("m", "7").url,
        "https://s/_matrix/client/v3/rooms/a%2Fb%3Ac%C3%A9~_.-Z9:s/send/m.room.message/7"
    );
}

#[test]
fn telegram() {
    let client = telegram_client();
    let request = client.send_message("Prueba");
    let expected = Request {
        method: Method::Post,
        url: "https://api.telegram.org/bot123:abc/sendMessage".to_string(),
        headers: vec![pair("Content-Type", "application/json")],
        query: vec![],
        body: Some(
            "{\"chat_id\":\"-1001\",\"message_thread_id\":\"42\",\
             \"parse_mode\":\"MarkdownV2\",\"text\":\"Prueba\"}"
                .to_string(),
        ),
    };
    assert_eq!(request, expected);
    assert!(response(200, "{\"ok\":true}").accept().is_ok());
    let message = "*[atareao.es](https://atareao.es)*\nOrigen\n\n";
    let request = client.send_message(message);
    assert_eq!(
        request.body,
        Some(
            "{\"chat_id\":\"-1001\",\"message_thread_id\":\"42\",\
             \"parse_mode\":\"MarkdownV2\",\
             \"text\":\"*[atareao.es](https://atareao.es)*\\nOrigen\\n\\n\"}"
                .to_string()
        )
    );
    assert!(response(200, "{\"ok\":true}").accept().is_ok());
}

#[test]
fn the_thread_defaults_to_zero() {
    assert_eq!(default_thread_id(), "0");
    let client = TelegramClient::with_thread("t".to_string(), "c".to_string(), None);
    assert_eq!(client, TelegramClient::new("t".to_string(), "c".to_string(), "0".to_string()));
    let client =
        TelegramClient::with_thread("t".to_string(), "c".to_string(), Some("9".to_string()));
    assert_eq!(client, TelegramClient::new("t".to_string(), "c".to_string(), "9".to_string()));
}

#[test]
fn a_destination_has_its_markup() {
    assert_eq!(DeliveryTarget::Room(matrix()).markup(), Markup::Html);
    assert_eq!(DeliveryTarget::Channel(telegram_client()).markup(), Markup::Markdown);
}

#[test]
fn a_destination_delivers_through_its_client() {
    assert_eq!(DeliveryTarget::Room(matrix()).deliver("m", "5"), matrix().post("m", "5"));
    assert_eq!(
        DeliveryTarget::Channel(telegram_client()).deliver("m", "5"),
        telegram_client().send_message("m")
    );
}

#[test]
fn each_action_has_its_request() {
    let feed = miniflux();
    let adapters = Adapters {
        feed: miniflux(),
        target: DeliveryTarget::Room(matrix()),
        summarizer: Some(model()),
    };
    let request = |action: Action| adapters.request_for(&action, "9");
    assert_eq!(request(Action::RefreshFeeds), Some(feed.refresh_all_feeds()));
    assert_eq!(request(Action::ListUnread { limit: Some(5) }), Some(feed.get_entries(Some(5))));
    assert_eq!(request(Action::FetchContent { entry_id: 4 }), Some(feed.get_content(4)));
    assert_eq!(
        request(Action::MarkRead { entry_ids: vec![1, 2] }),
        Some(feed.mark_as_read_some(vec![1, 2]))
    );
    assert_eq!(
        request(Action::Deliver { message: "hello".to_string() }),
        Some(matrix().post("hello", "9"))
    );
    assert_eq!(
        request(Action::Summarize { batch: vec![input()] }),
        Some(model().process_news(&vec![input()]))
    );
    assert_eq!(request(Action::Sleep { seconds: 1 }), None);
    let without = Adapters { summarizer: None, ..adapters.clone() };
    assert_eq!(without.request_for(&Action::Summarize { batch: vec![input()] }, "9"), None);
    assert_eq!(
        without.request_for(&Action::RefreshFeeds, "9"),
        Some(feed.refresh_all_feeds())
    );
}

#[test]
fn a_channel_delivers_without_a_transaction() {
    let adapters = Adapters {
        feed: miniflux(),
        target: DeliveryTarget::Channel(telegram_client()),
        summarizer: None,
    };
    assert_eq!(
        adapters.request_for(&Action::Deliver { message: "hello".to_string() }, "9"),
        Some(telegram_client().send_message("hello"))
    );
}

#[test]
fn a_batch_is_sent_to_the_model_as_a_conversation() {
    let expected = Request {
        method: Method::Post,
        url: "https://llm.example.org/v1/chat/completions".to_string(),
        headers: vec![
            pair("Content-Type", "application/json"),
            pair("Authorization", "Bearer key"),
        ],
        query: vec![],
        body: Some(
            "{\"max_tokens\":512,\"messages\":[\
             {\"content\":\"You are an editor.\",\"role\":\"system\"},\
             {\"content\":\"Summarize these.\\n[]\",\"role\":\"user\"}],\
             \"model\":\"reader-2\"}"
                .to_string(),
        ),
    };
    assert_eq!(model().process_news(&vec![]), expected);
}

#[test]
fn the_model_is_asked_with_the_batch_as_json() {
    let request = model().process_news(&vec![input(), input()]);
    let body = Json::parse(&request.body.unwrap()).unwrap();
    let messages = body.get("messages").unwrap().as_array().unwrap();
    assert_eq!(messages.len(), 2);
    let asked = messages[1].get("content").unwrap().as_text().unwrap();
    let item = "{\"author\":\"Ann\",\"feed_title\":\"F\",\"published_at\":\"today\",\
                \"resume\":\"body\",\"title\":\"A\",\"url\":\"u1\"}";
    assert_eq!(asked, &format!("Summarize these.\n[{},{}]", item, item));
    assert_eq!(messages[1].get("role"), Some(&Json::Text("user".to_string())));
    assert_eq!(body.get("max_tokens"), Some(&Json::Number(Some(512))));
    assert_eq!(body.get("model"), Some(&Json::Text("reader-2".to_string())));
}

#[test]
fn the_text_of_a_completion_is_read_from_the_body() {
    let body = "{\"choices\":[{\"index\":0,\"message\":{\"role\":\"assistant\",\
                \"content\":\"{\\\"news\\\":[]}\"}}]}";
    assert_eq!(Model::read_summary(&response(200, body)), Ok("{\"news\":[]}".to_string()));
    for body in ["", "{}", "{\"choices\":[]}", "{\"choices\":[{}]}", "{\"choices\":7}",
        "{\"choices\":[{\"message\":{\"content\":null}}]}"]
    {
        assert_eq!(
            Model::read_summary(&response(200, body)),
            Err(HttpError::Unreadable { body: body.to_string() })
        );
    }
    assert_eq!(
        Model::read_summary(&response(429, "slow down")),
        Err(HttpError::Rejected { status: 429, body: "slow down".to_string() })
    );
}

#[test]
fn a_completion_becomes_an_event_with_its_text() {
    let summarize = Action::Summarize { batch: vec![input()] };
    let body = "{\"choices\":[{\"message\":{\"content\":\"hello\"}}]}";
    assert_eq!(
        Event::answering(&summarize, Some(&response(200, body))),
        Some(Event::Summarized { response: Some("hello".to_string()) })
    );
    assert_eq!(
        Event::answering(&summarize, Some(&response(500, body))),
        Some(Event::Summarized { response: None })
    );
    assert_eq!(
        Event::answering(&summarize, Some(&response(200, "{}"))),
        Some(Event::Summarized { response: None })
    );
    assert_eq!(Event::answering(&summarize, None), Some(Event::Summarized { response: None }));
}

#[test]
fn each_response_has_its_event() {
    let ok = response(204, "");
    let bad = response(500, "down");
    assert_eq!(
        Event::answering(&Action::RefreshFeeds, Some(&ok)),
        Some(Event::Refreshed { ok: true })
    );
    assert_eq!(
        Event::answering(&Action::RefreshFeeds, Some(&bad)),
        Some(Event::Refreshed { ok: false })
    );
    assert_eq!(Event::answering(&Action::RefreshFeeds, None), Some(Event::Refreshed { ok: false }));
    let deliver = Action::Deliver { message: "m".to_string() };
    assert_eq!(Event::answering(&deliver, Some(&ok)), Some(Event::Delivered { ok: true }));
    assert_eq!(Event::answering(&deliver, Some(&bad)), Some(Event::Delivered { ok: false }));
    assert_eq!(Event::answering(&deliver, None), Some(Event::Delivered { ok: false }));
    let mark = Action::MarkRead { entry_ids: vec![1] };
    assert_eq!(Event::answering(&mark, Some(&ok)), Some(Event::Acknowledged { ok: true }));
    assert_eq!(Event::answering(&mark, Some(&bad)), Some(Event::Acknowledged { ok: false }));
    assert_eq!(Event::answering(&Action::Sleep { seconds: 1 }, Some(&ok)), None);
    assert_eq!(Event::answering(&Action::Sleep { seconds: 1 }, None), None);
}

#[test]
fn a_listing_becomes_an_event_with_its_entries() {
    let list = Action::ListUnread { limit: None };
    let listed = response(200, "{\"entries\":[{\"id\":5}]}");
    let event = Event::answering(&list, Some(&listed));
    let expected = Entry::from_json(&Json::Object(vec![("id".to_string(), Json::Number(Some(5)))]));
    assert_eq!(event, Some(Event::Listed { entries: Some(vec![expected]) }));
    assert_eq!(
        Event::answering(&list, Some(&response(200, "nope"))),
        Some(Event::Listed { entries: None })
    );
    assert_eq!(
        Event::answering(&list, Some(&response(502, "{\"entries\":[]}"))),
        Some(Event::Listed { entries: None })
    );
    assert_eq!(Event::answering(&list, None), Some(Event::Listed { entries: None }));
}

#[test]
fn fetched_content_becomes_an_event() {
    let fetch = Action::FetchContent { entry_id: 5 };
    assert_eq!(
        Event::answering(&fetch, Some(&response(200, "{\"content\":\"long\"}"))),
        Some(Event::ContentFetched { content: Some("long".to_string()) })
    );
    assert_eq!(
        Event::answering(&fetch, Some(&response(200, "{}"))),
        Some(Event::ContentFetched { content: None })
    );
    assert_eq!(Event::answering(&fetch, None), Some(Event::ContentFetched { content: None }));
}
