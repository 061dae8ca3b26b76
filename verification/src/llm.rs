//! Prompts and replies: what goes to the model, and what comes back into the conversation.

use vstd::prelude::*;
use vstd::string::*;
use crate::strutil;

verus! {

/// What the model integration goes by.
#[derive(Debug)]
pub struct LlmSettings {
    /// Default model to use.
    pub default_model: String,
    /// System prompt for the assistant.
    pub system_prompt: String,
    /// Model participant ID (for author attribution).
    pub model_participant_id: String,
}

impl LlmSettings {
    /// Settings for a model and its participant, with the usual system prompt.
    pub fn for_model(model: &str, participant: &str) -> (settings: Self)
        ensures
            settings.default_model@ == model@,
            settings.system_prompt@
                == "You are a helpful AI assistant in a collaborative coding environment called Kaijutsu. Be concise and helpful."@,
            settings.model_participant_id@ == participant@,
    {
        LlmSettings {
            default_model: model.to_owned(),
            system_prompt:
                "You are a helpful AI assistant in a collaborative coding environment called Kaijutsu. Be concise and helpful.".to_owned(),
            model_participant_id: participant.to_owned(),
        }
    }
}

/// The most tokens that a reply may have.
pub const MAX_TOKENS: u32 = 4096;

/// What a message holds.
#[derive(Debug)]
pub enum Content {
    Text(String),
    Thinking(String),
    /// A call of a tool; `input` is its argument as text.
    ToolUse { id: String, name: String, input: String },
    ToolResult { tool_use_id: String, content: String, is_error: bool },
}

/// What a message holds, as mathematical values.
#[verifier::ext_equal]
pub enum ContentView {
    Text(Seq<char>),
    Thinking(Seq<char>),
    ToolUse { id: Seq<char>, name: Seq<char>, input: Seq<char> },
    ToolResult { tool_use_id: Seq<char>, content: Seq<char>, is_error: bool },
}

impl Content {
    /// The content as mathematical values.
    pub open spec fn view(&self) -> ContentView {
        match self {
            Content::Text(s) => ContentView::Text(s@),
            Content::Thinking(s) => ContentView::Thinking(s@),
            Content::ToolUse { id, name, input } => ContentView::ToolUse {
                id: id@,
                name: name@,
                input: input@,
            },
            Content::ToolResult { tool_use_id, content, is_error } => ContentView::ToolResult {
                tool_use_id: tool_use_id@,
                content: content@,
                is_error: *is_error,
            },
        }
    }
}

/// A message of a conversation.
#[derive(Debug)]
pub struct Message {
    pub author: String,
    pub content: Content,
}

/// A conversation: who takes part, and what was said.
#[derive(Debug)]
pub struct Conversation {
    pub participants: Vec<String>,
    pub messages: Vec<Message>,
}

/// Messages as mathematical values: author and content.
pub open spec fn message_views(messages: Seq<Message>) -> Seq<(Seq<char>, ContentView)> {
    messages.map_values(|m: Message| (m.author@, m.content@))
}

impl Conversation {
    /// The messages as mathematical values.
    pub open spec fn said(&self) -> Seq<(Seq<char>, ContentView)> {
        message_views(self.messages@)
    }

    /// The participants as mathematical values.
    pub open spec fn present(&self) -> Seq<Seq<char>> {
        strutil::views(self.participants@)
    }

    fn say(&mut self, author: &str, content: Content)
        ensures
            final(self).said() == old(self).said().push((author@, content@)),
            final(self).participants == old(self).participants,
    {
        let ghost before = self.said();
        let message = Message { author: author.to_owned(), content };
        self.messages.push(message);
        assert(self.said() =~= before.push((author@, content@)));
    }

    /// Whether someone takes part.
    pub fn has_participant(&self, id: &str) -> (present: bool)
        ensures
            present == self.present().contains(id@),
    {
        let mut i: usize = 0;
        while i < self.participants.len()
            invariant
                i <= self.participants.len(),
                forall|k: int| 0 <= k < i ==> self.participants@[k]@ != id@,
            decreases self.participants.len() - i,
        {
            if strutil::same(self.participants[i].as_str(), id) {
                assert(self.present()[i as int] == id@);
                return true;
            }
            i = i + 1;
        }
        proof {
            if self.present().contains(id@) {
                let k = choose|k: int| 0 <= k < self.present().len() && self.present()[k] == id@;
                assert(self.participants@[k]@ == id@);
            }
        }
        false
    }
}

/// Who says something to the model.
#[derive(Debug, Clone, Copy, PartialEq, Eq, Structural)]
pub enum Role {
    User,
    Assistant,
}

/// One turn of the history that the model gets.
#[derive(Debug)]
pub struct LlmMessage {
    pub role: Role,
    pub text: String,
}

/// Turns as mathematical values.
pub open spec fn turn_views(turns: Seq<LlmMessage>) -> Seq<(Role, Seq<char>)> {
    turns.map_values(|t: LlmMessage| (t.role, t.text@))
}

/// The turns of a conversation: its text messages, those of users as the user's, all others as
/// the assistant's.
pub open spec fn history(said: Seq<(Seq<char>, ContentView)>) -> Seq<(Role, Seq<char>)>
    decreases said.len(),
{
    if said.len() == 0 {
        Seq::empty()
    } else {
        let front = history(said.drop_last());
        match said.last() {
            (author, ContentView::Text(text)) => front.push(
                (
                    if strutil::begins_with(author, "user:"@) {
                        Role::User
                    } else {
                        Role::Assistant
                    },
                    text,
                ),
            ),
            _ => front,
        }
    }
}

/// The turns that the model gets.
pub fn build_history(conv: &Conversation) -> (turns: Vec<LlmMessage>)
    ensures
        turn_views(turns@) == history(conv.said()),
{
    let mut turns: Vec<LlmMessage> = Vec::new();
    let mut i: usize = 0;
    let ghost said = conv.said();
    assert(turn_views(turns@) =~= Seq::empty());
    while i < conv.messages.len()
        invariant
            i <= conv.messages.len(),
            said == conv.said(),
            turn_views(turns@) == history(said.take(i as int)),
        decreases conv.messages.len() - i,
    {
        let ghost before = turn_views(turns@);
        assert(said.take(i + 1).drop_last() =~= said.take(i as int));
        let message = &conv.messages[i];
        if let Content::Text(text) = &message.content {
            let role = if strutil::starts_with(message.author.as_str(), "user:") {
                Role::User
            } else {
                Role::Assistant
            };
            let turn = LlmMessage { role, text: text.clone() };
            turns.push(turn);
            assert(turn_views(turns@) =~= before.push((role, text@)));
        }
        i = i + 1;
    }
    assert(said.take(i as int) =~= said);
    turns
}

/// The participant ID of a user.
pub open spec fn user_id(username: Seq<char>) -> Seq<char> {
    "user:"@ + username
}

/// Handle a prompt: a blank one is skipped; otherwise the model joins if it has not yet, the
/// user says the prompt, and the model gets the history with it.
pub fn handle_prompt(
    conv: &mut Conversation,
    prompt: &str,
    settings: &LlmSettings,
    username: &str,
) -> (turns: Option<Vec<LlmMessage>>)
    ensures
        if strutil::trimmed(prompt@).len() == 0 {
            turns is None && *final(conv) == *old(conv)
        } else {
            let model = settings.model_participant_id@;
            &&& final(conv).present() == (if old(conv).present().contains(model) {
                old(conv).present()
            } else {
                old(conv).present().push(model)
            })
            &&& final(conv).said() == old(conv).said().push(
                (user_id(username@), ContentView::Text(prompt@)),
            )
            &&& turns matches Some(t) && turn_views(t@) == history(final(conv).said())
        },
{
    let trimmed = strutil::trim(prompt);
    if trimmed.as_str().is_empty() {
        return None;
    }
    if !conv.has_participant(settings.model_participant_id.as_str()) {
        let ghost before = conv.present();
        let ghost said = conv.said();
        conv.participants.push(settings.model_participant_id.clone());
        assert(conv.present() =~= before.push(settings.model_participant_id@));
        assert(conv.said() == said);
    }
    let mut author: String = "user:".to_owned();
    author.append(username);
    conv.say(author.as_str(), Content::Text(prompt.to_owned()));
    Some(build_history(conv))
}

/// A reply of the model: its parts, and its whole text.
#[derive(Debug)]
pub struct LlmResponse {
    pub content: String,
    pub blocks: Vec<Content>,
}

/// The parts of a reply as mathematical values.
pub open spec fn content_views(blocks: Seq<Content>) -> Seq<ContentView> {
    blocks.map_values(|c: Content| c@)
}

/// What a reply adds to a conversation: each of its parts, or its whole text where it has no
/// parts.
pub open spec fn reply_messages(
    model: Seq<char>,
    content: Seq<char>,
    blocks: Seq<ContentView>,
) -> Seq<(Seq<char>, ContentView)> {
    if blocks.len() == 0 {
        seq![(model, ContentView::Text(content))]
    } else {
        blocks.map_values(|c: ContentView| (model, c))
    }
}

fn copy_content(content: &Content) -> (copy: Content)
    ensures
        copy@ == content@,
{
    match content {
        Content::Text(s) => Content::Text(s.clone()),
        Content::Thinking(s) => Content::Thinking(s.clone()),
        Content::ToolUse { id, name, input } => Content::ToolUse {
            id: id.clone(),
            name: name.clone(),
            input: input.clone(),
        },
        Content::ToolResult { tool_use_id, content, is_error } => Content::ToolResult {
            tool_use_id: tool_use_id.clone(),
            content: content.clone(),
            is_error: *is_error,
        },
    }
}

/// Take in what the model replied, or that it failed.
pub fn handle_reply(
    conv: &mut Conversation,
    model: &str,
    reply: &Result<LlmResponse, String>,
)
    ensures
        final(conv).participants == old(conv).participants,
        final(conv).said() == old(conv).said() + match *reply {
            Ok(response) => reply_messages(
                model@,
                response.content@,
                content_views(response.blocks@),
            ),
            Err(e) => seq![(model@, ContentView::Text("❌ Error: "@ + e@))],
        },
{
    let ghost before = conv.said();
    match reply {
        Ok(response) => {
            let ghost parts = content_views(response.blocks@);
            let ghost added = reply_messages(model@, response.content@, parts);
            if response.blocks.len() == 0 {
                conv.say(model, Content::Text(response.content.clone()));
                assert(conv.said() =~= before + added);
            } else {
                let mut i: usize = 0;
                assert(conv.said() =~= before + added.take(0));
                while i < response.blocks.len()
                    invariant
                        i <= response.blocks.len(),
                        response.blocks.len() > 0,
                        parts == content_views(response.blocks@),
                        added == reply_messages(model@, response.content@, parts),
                        conv.participants == old(conv).participants,
                        conv.said() == before + added.take(i as int),
                    decreases response.blocks.len() - i,
                {
                    conv.say(model, copy_content(&response.blocks[i]));
                    assert(added[i as int] == (model@, response.blocks@[i as int]@));
                    assert(conv.said() =~= before + added.take(i + 1));
                    i = i + 1;
                }
                assert(added.take(i as int) =~= added);
            }
        },
        Err(e) => {
            let mut text: String = "❌ Error: ".to_owned();
            text.append(e.as_str());
            conv.say(model, Content::Text(text));
            assert(conv.said() =~= before + seq![(model@, ContentView::Text("❌ Error: "@ + e@))]);
        },
    }
}

/// A prompt is always the last turn that the model gets, as the user's.
pub proof fn law_the_prompt_is_the_last_turn(
    said: Seq<(Seq<char>, ContentView)>,
    username: Seq<char>,
    prompt: Seq<char>,
)
    ensures
        ({
            let turns = history(said.push((user_id(username), ContentView::Text(prompt))));
            turns.len() > 0 && turns.last() == (Role::User, prompt)
        }),
{
    let whole = said.push((user_id(username), ContentView::Text(prompt)));
    let author = user_id(username);
    assert(whole.drop_last() =~= said);
    assert(author.take("user:"@.len() as int) =~= "user:"@);
}

/// Who a message counts as in the history.
pub open spec fn speaker(author: Seq<char>) -> Role {
    if author.len() >= 5 && author[0] == 'u' && author[1] == 's' && author[2] == 'e' && author[3]
        == 'r' && author[4] == ':' {
        Role::User
    } else {
        Role::Assistant
    }
}

/// Every text message is one turn and nothing else is: the turns are the text messages in the
/// order in which they were said, each with its whole text, those of an author whose name
/// begins with `user:` as the user's and all others as the assistant's.
pub proof fn law_every_text_message_is_one_turn(said: Seq<(Seq<char>, ContentView)>)
    ensures
        history(said) == said.filter(|m: (Seq<char>, ContentView)| m.1 is Text).map_values(
            |m: (Seq<char>, ContentView)| (speaker(m.0), m.1->Text_0),
        ),
    decreases said.len(),
{
    let is_text = |m: (Seq<char>, ContentView)| m.1 is Text;
    let turn = |m: (Seq<char>, ContentView)| (speaker(m.0), m.1->Text_0);
    reveal(Seq::filter);
    if said.len() > 0 {
        let front = said.drop_last();
        law_every_text_message_is_one_turn(front);
        let last = said.last();
        lemma_user_prefix(last.0);
        if last.1 is Text {
            assert(said.filter(is_text) =~= front.filter(is_text).push(last));
            assert(said.filter(is_text).map_values(turn) =~= front.filter(is_text).map_values(
                turn,
            ).push(turn(last)));
        }
    } else {
        assert(said.filter(is_text).map_values(turn) =~= Seq::empty());
    }
}

/// A message keeps its place among the turns: the turn of a text message stands behind as many
/// turns as there were text messages before it.
pub proof fn law_a_message_keeps_its_place(said: Seq<(Seq<char>, ContentView)>, i: int)
    requires
        0 <= i < said.len(),
        said[i].1 is Text,
    ensures
        ({
            let before = said.take(i).filter(|m: (Seq<char>, ContentView)| m.1 is Text).len() as int;
            &&& before < history(said).len()
            &&& history(said)[before] == (speaker(said[i].0), said[i].1->Text_0)
        }),
{
    law_a_conversation_can_be_split(said.take(i), said.skip(i));
    law_a_conversation_can_be_split(said.skip(i).take(1), said.skip(i).skip(1));
    law_every_text_message_is_one_turn(said.take(i));
    law_one_message(said[i].0, said[i].1);
    assert(said.take(i) + said.skip(i) =~= said);
    assert(said.skip(i).take(1) + said.skip(i).skip(1) =~= said.skip(i));
    assert(said.skip(i).take(1) =~= seq![said[i]]);
}

/// The history of a conversation is the history of its beginning and then that of the rest:
/// nothing that is said later removes or changes a turn.
pub proof fn law_a_conversation_can_be_split(
    earlier: Seq<(Seq<char>, ContentView)>,
    later: Seq<(Seq<char>, ContentView)>,
)
    ensures
        history(earlier + later) == history(earlier) + history(later),
    decreases later.len(),
{
    if later.len() == 0 {
        assert(earlier + later =~= earlier);
    } else {
        law_a_conversation_can_be_split(earlier, later.drop_last());
        assert((earlier + later).drop_last() =~= earlier + later.drop_last());
    }
}

/// One text message is one turn; a thought, a call of a tool and its result are none.
pub proof fn law_one_message(author: Seq<char>, content: ContentView)
    ensures
        history(seq![(author, content)]) == (match content {
            ContentView::Text(text) => seq![(speaker(author), text)],
            _ => Seq::empty(),
        }),
{
    reveal_with_fuel(history, 2);
    lemma_user_prefix(author);
    assert(seq![(author, content)].drop_last() =~= Seq::empty());
}

/// The prefix of a user's name, letter by letter.
proof fn lemma_user_prefix(author: Seq<char>)
    ensures
        strutil::begins_with(author, "user:"@) == (speaker(author) == Role::User),
{
    reveal_strlit("user:");
    let user = "user:"@;
    if speaker(author) == Role::User {
        assert(author.take(5) =~= user);
    }
    if author.len() >= 5 && author.take(5) == user {
        assert(author[0] == author.take(5)[0]);
        assert(author[1] == author.take(5)[1]);
        assert(author[2] == author.take(5)[2]);
        assert(author[3] == author.take(5)[3]);
        assert(author[4] == author.take(5)[4]);
    }
}

/// A reply adds all its parts in their order, or its whole text where it has none, and all of it
/// as the model's; so a reply of text alone is the assistant's next turn.
pub proof fn law_a_reply_is_added_whole(
    said: Seq<(Seq<char>, ContentView)>,
    model: Seq<char>,
    content: Seq<char>,
    blocks: Seq<ContentView>,
    i: int,
)
    ensures
        blocks.len() == 0 ==> reply_messages(model, content, blocks) == seq![
            (model, ContentView::Text(content)),
        ],
        blocks.len() > 0 ==> reply_messages(model, content, blocks).len() == blocks.len(),
        0 <= i < blocks.len() ==> reply_messages(model, content, blocks)[i] == (model, blocks[i]),
        blocks.len() == 0 ==> history(said + reply_messages(model, content, blocks)) == history(
            said,
        ).push((speaker(model), content)),
{
    if blocks.len() == 0 {
        let added = reply_messages(model, content, blocks);
        law_a_conversation_can_be_split(said, added);
        law_one_message(model, ContentView::Text(content));
        assert(history(said) + seq![(speaker(model), content)] =~= history(said).push(
            (speaker(model), content),
        ));
    }
}

/// Whoever prompts speaks as the user, under their own name.
pub proof fn law_a_prompt_is_the_user_s(username: Seq<char>)
    ensures
        user_id(username) == seq!['u', 's', 'e', 'r', ':'] + username,
        speaker(user_id(username)) == Role::User,
{
    reveal_strlit("user:");
    assert("user:"@ =~= seq!['u', 's', 'e', 'r', ':']);
}

} // verus!
