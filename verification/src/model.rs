//! The summarizer: a language model behind a chat completion endpoint.

use crate::digest::{input_views, SummaryInput, SummaryInputView};
use crate::http::{
    answer, no_pairs, pair, pair_views, HttpError, Method, Request, RequestView, Response,
};
use crate::json::{decoded, rendered, text_member, view_of, Json, JsonView};
use vstd::prelude::*;

verus! {

/// Access to a summarizer: where it is, the key that it asks for, the model
/// by name and version, what the model is told it is, what it is asked to do
/// with a batch, and the most tokens that it may answer with.
#[derive(Debug, PartialEq, Eq)]
pub struct Model {
    url: String,
    api_key: String,
    name: String,
    version: String,
    description: String,
    prompt: String,
    max_tokens: u32,
}

/// The mathematical model of a [`Model`].
pub struct ModelView {
    pub url: Seq<char>,
    pub api_key: Seq<char>,
    pub name: Seq<char>,
    pub version: Seq<char>,
    pub description: Seq<char>,
    pub prompt: Seq<char>,
    pub max_tokens: u32,
}

impl View for Model {
    type V = ModelView;

    closed spec fn view(&self) -> ModelView {
        ModelView {
            url: self.url@,
            api_key: self.api_key@,
            name: self.name@,
            version: self.version@,
            description: self.description@,
            prompt: self.prompt@,
            max_tokens: self.max_tokens,
        }
    }
}

impl Clone for Model {
    fn clone(&self) -> (copy: Model)
        ensures
            copy@ == self@,
    {
        Model {
            url: self.url.clone(),
            api_key: self.api_key.clone(),
            name: self.name.clone(),
            version: self.version.clone(),
            description: self.description.clone(),
            prompt: self.prompt.clone(),
            max_tokens: self.max_tokens,
        }
    }
}

/// The headers of a request to the summarizer.
pub open spec fn model_headers(model: ModelView) -> Seq<(Seq<char>, Seq<char>)> {
    seq![
        ("Content-Type"@, "application/json"@),
        ("Authorization"@, "Bearer "@ + model.api_key),
    ]
}

/// One entry of a batch as a JSON object.
pub open spec fn input_document(input: SummaryInputView) -> JsonView {
    JsonView::Object(
        seq![
            text_member("author"@, input.author),
            text_member("feed_title"@, input.feed_title),
            text_member("published_at"@, input.published_at),
            text_member("resume"@, input.resume),
            text_member("title"@, input.title),
            text_member("url"@, input.url),
        ],
    )
}

/// A batch as a JSON array, entry for entry.
pub open spec fn batch_document(batch: Seq<SummaryInputView>) -> JsonView {
    JsonView::Array(Seq::new(batch.len(), |i: int| input_document(batch[i])))
}

/// One message of a conversation.
pub open spec fn chat_message(role: Seq<char>, content: Seq<char>) -> JsonView {
    JsonView::Object(seq![text_member("content"@, content), text_member("role"@, role)])
}

/// What the model is asked as the user: its prompt, a line break and the
/// batch as JSON text.
pub open spec fn question(model: ModelView, batch: Seq<SummaryInputView>) -> Seq<char> {
    model.prompt + "\n"@ + rendered(batch_document(batch))
}

/// The conversation that has `batch` summarized: the model is named by its
/// name, `-` and its version, is told its description as the system and is
/// asked its question as the user.
pub open spec fn completion(model: ModelView, batch: Seq<SummaryInputView>) -> JsonView {
    JsonView::Object(
        seq![
            ("max_tokens"@, JsonView::Number(Some(model.max_tokens as u64))),
            (
                "messages"@,
                JsonView::Array(
                    seq![
                        chat_message("system"@, model.description),
                        chat_message("user"@, question(model, batch)),
                    ],
                ),
            ),
            text_member("model"@, model.name + "-"@ + model.version),
        ],
    )
}

/// The request that has `batch` summarized.
pub open spec fn summary_request(model: ModelView, batch: Seq<SummaryInputView>) -> RequestView {
    RequestView {
        method: Method::Post,
        url: model.url,
        headers: model_headers(model),
        query: Seq::empty(),
        body: Some(rendered(completion(model, batch))),
    }
}

/// The text that a decoded completion holds: the string `content` of the
/// `message` of the first of its `choices`.
pub open spec fn completion_in(doc: Option<JsonView>) -> Option<Seq<char>> {
    match doc {
        Some(json) => match json.items_at("choices"@) {
            Some(choices) => if choices.len() > 0 {
                match choices[0].member("message"@) {
                    Some(message) => message.text_at("content"@),
                    None => None,
                }
            } else {
                None
            },
            None => None,
        },
        None => None,
    }
}

impl Model {
    /// Access to the summarizer at `url`.
    pub fn new(
        url: String,
        api_key: String,
        name: String,
        version: String,
        description: String,
        prompt: String,
        max_tokens: u32,
    ) -> (model: Model)
        ensures
            model@ == (ModelView {
                url: url@,
                api_key: api_key@,
                name: name@,
                version: version@,
                description: description@,
                prompt: prompt@,
                max_tokens,
            }),
    {
        Model { url, api_key, name, version, description, prompt, max_tokens }
    }

    fn input_json(input: &SummaryInput) -> (document: Json)
        ensures
            document@ == input_document(input@),
    {
        let mut members: Vec<(String, Json)> = Vec::new();
        members.push(Json::text_member("author", input.author.as_str()));
        members.push(Json::text_member("feed_title", input.feed_title.as_str()));
        members.push(Json::text_member("published_at", input.published_at.as_str()));
        members.push(Json::text_member("resume", input.resume.as_str()));
        members.push(Json::text_member("title", input.title.as_str()));
        members.push(Json::text_member("url", input.url.as_str()));
        let document = Json::object(members);
        assert(document@->Object_0 =~= input_document(input@)->Object_0);
        document
    }

    fn batch_json(news: &Vec<SummaryInput>) -> (document: Json)
        ensures
            document@ == batch_document(input_views(news@)),
    {
        let mut items: Vec<Json> = Vec::new();
        let mut i: usize = 0;
        while i < news.len()
            invariant
                i <= news.len(),
                items.len() == i,
                forall|j: int| 0 <= j < i ==> (#[trigger] items[j])@ == input_document(news[j]@),
            decreases news.len() - i,
        {
            items.push(Self::input_json(&news[i]));
            i += 1;
        }
        let document = Json::array(items);
        assert(document@->Array_0 =~= batch_document(input_views(news@))->Array_0);
        document
    }

    fn chat_json(role: &str, content: &str) -> (document: Json)
        ensures
            document@ == chat_message(role@, content@),
    {
        let mut members: Vec<(String, Json)> = Vec::new();
        members.push(Json::text_member("content", content));
        members.push(Json::text_member("role", role));
        let document = Json::object(members);
        assert(document@->Object_0 =~= chat_message(role@, content@)->Object_0);
        document
    }

    /// Asks to have `news` summarized.
    pub fn process_news(&self, news: &Vec<SummaryInput>) -> (request: Request)
        ensures
            request@ == summary_request(self@, input_views(news@)),
    {
        let mut bearer = String::from_str("Bearer ");
        bearer.append(self.api_key.as_str());
        let mut headers: Vec<(String, String)> = Vec::new();
        headers.push(pair("Content-Type", "application/json"));
        headers.push(pair("Authorization", bearer.as_str()));
        assert(pair_views(headers@) =~= model_headers(self@));
        let mut name = self.name.clone();
        name.append("-");
        name.append(self.version.as_str());
        let mut asked = self.prompt.clone();
        asked.append("\n");
        asked.append(Self::batch_json(news).render().as_str());
        let mut messages: Vec<Json> = Vec::new();
        messages.push(Self::chat_json("system", self.description.as_str()));
        messages.push(Self::chat_json("user", asked.as_str()));
        let conversation = Json::array(messages);
        assert(conversation@->Array_0 =~= seq![
            chat_message("system"@, self@.description),
            chat_message("user"@, question(self@, input_views(news@))),
        ]);
        let mut members: Vec<(String, Json)> = Vec::new();
        members.push((String::from_str("max_tokens"), Json::number(self.max_tokens as u64)));
        members.push((String::from_str("messages"), conversation));
        members.push(Json::text_member("model", name.as_str()));
        let document = Json::object(members);
        assert(document@ == completion(self@, input_views(news@))) by {
            assert(document@->Object_0 =~= completion(self@, input_views(news@))->Object_0);
        }
        Request {
            method: Method::Post,
            url: self.url.clone(),
            headers,
            query: no_pairs(),
            body: Some(document.render()),
        }
    }

    /// The text of a decoded completion; `None` stands for a body that did
    /// not decode.
    pub fn completion_of(doc: &Option<Json>) -> (found: Option<String>)
        ensures
            match found {
                Some(text) => completion_in(view_of(*doc)) == Some(text@),
                None => completion_in(view_of(*doc)) is None,
            },
    {
        let json = match doc {
            Some(json) => json,
            None => {
                return None;
            },
        };
        let choices = match json.get("choices") {
            Some(listed) => match listed.as_array() {
                Some(choices) => choices,
                None => {
                    return None;
                },
            },
            None => {
                return None;
            },
        };
        if choices.len() == 0 {
            return None;
        }
        match choices[0].get("message") {
            Some(message) => match message.get("content") {
                Some(content) => match content.as_text() {
                    Some(text) => Some(text.clone()),
                    None => None,
                },
                None => None,
            },
            None => None,
        }
    }

    /// The summarizer's response to a batch: the text that the model wrote.
    ///
    /// A status that is not one of success is a rejection, and a body that
    /// holds no completion is unreadable. Whether the text holds a digest is
    /// not looked at here.
    pub fn read_summary(response: &Response) -> (outcome: Result<String, HttpError>)
        ensures
            crate::http::text_result_view(outcome) == answer(
                response@,
                completion_in(decoded(response@.body)),
            ),
    {
        if !response.succeeded() {
            return Err(
                HttpError::Rejected { status: response.status, body: response.body.clone() },
            );
        }
        let doc = Json::parse(response.body.as_str());
        match Self::completion_of(&doc) {
            Some(text) => Ok(text),
            None => Err(HttpError::Unreadable { body: response.body.clone() }),
        }
    }
}

} // verus!
