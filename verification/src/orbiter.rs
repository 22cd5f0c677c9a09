//! The query orbiter: the decisions of one request, stage by stage.
//!
//! A request runs through four stages: the prompt is compiled, the model is
//! asked, the query is executed, the rows are normalized. The two stages in
//! the middle are work of the caller's; what is decided before, between and
//! after them is decided here. A failure at any stage ends the request.

use vstd::prelude::*;
use crate::error::OrbiterError;
use crate::binding::{bindings_view, BindingView, PlaceholderBinding};
use crate::completion::{last_assistant_response, last_reply, no_reply_text};
use crate::lines::{lines_of, split_lines};
use crate::prompt::{compiled, messages_view, read_markdown_prompt, ChatMessage, MessageView};
use crate::table::{build_table, rows_view, table_of, NativeRow, Table, TableView};

verus! {

/// The marker that stands for the caller's request.
pub open spec fn request_marker() -> Seq<char> {
    "{{user_request}}"@
}

/// The marker that stands for the description of the tables.
pub open spec fn context_marker() -> Seq<char> {
    "{{table_context}}"@
}

/// The bindings of one request: the request itself, then the description of
/// the tables.
pub open spec fn request_bindings(request: Seq<char>, table_context: Seq<char>) -> Seq<
    BindingView,
> {
    seq![
        BindingView { marker: request_marker(), value: request },
        BindingView { marker: context_marker(), value: table_context },
    ]
}

/// What is fixed for every request: the instruction template and the
/// description of the tables that goes into each prompt.
#[derive(Clone, Debug)]
pub struct DatabaseOrbiter {
    template: String,
    table_context: String,
}

impl DatabaseOrbiter {
    /// The text of the instruction template.
    pub closed spec fn template(&self) -> Seq<char> {
        self.template@
    }

    /// The description of the tables.
    pub closed spec fn table_context(&self) -> Seq<char> {
        self.table_context@
    }

    /// The messages that a request is put to the model with, or `None` where
    /// the template is malformed.
    pub open spec fn prompt_for(&self, request: Seq<char>) -> Option<Seq<MessageView>> {
        compiled(lines_of(self.template()), request_bindings(request, self.table_context()))
    }

    /// An orbiter for the given template and description of the tables.
    pub fn new(template: String, table_context: String) -> (orbiter: Self)
        ensures
            orbiter.template() == template@,
            orbiter.table_context() == table_context@,
    {
        DatabaseOrbiter { template, table_context }
    }

    /// First stage: the prompt for `request`. The request and the description
    /// of the tables take the place of their markers in the template.
    pub fn compile_prompt(&self, request: &str) -> (result: Result<Vec<ChatMessage>, OrbiterError>)
        ensures
            match result {
                Ok(messages) => self.prompt_for(request@) == Some(messages_view(messages@)),
                Err(e) => e == OrbiterError::MalformedTemplate && self.prompt_for(request@)
                    is None,
            },
    {
        let lines = split_lines(self.template.as_str());
        let mut bindings: Vec<PlaceholderBinding> = Vec::new();
        bindings.push(PlaceholderBinding::new("{{user_request}}", request));
        bindings.push(PlaceholderBinding::new("{{table_context}}", self.table_context.as_str()));
        assert(bindings_view(bindings@) == request_bindings(request@, self.table_context()));
        read_markdown_prompt(&lines, &bindings)
    }

    /// After the model was asked: the query to execute. `completion` is the
    /// model's answer, or the backend's words where the call failed. No query
    /// comes out of a failed call or of an answer without a message of the
    /// assistant.
    pub fn generated_sql(completion: Result<Vec<ChatMessage>, String>) -> (result: Result<
        String,
        OrbiterError,
    >)
        ensures
            match completion {
                Ok(messages) => match last_reply(messages_view(messages@)) {
                    Some(text) => result is Ok && result->Ok_0@ == text,
                    None => result matches Err(OrbiterError::UpstreamError(why)) && why@
                        == no_reply_text(),
                },
                Err(words) => result == Err::<String, OrbiterError>(
                    OrbiterError::UpstreamError(words),
                ),
            },
    {
        match completion {
            Ok(messages) => last_assistant_response(&messages),
            Err(words) => Err(OrbiterError::UpstreamError(words)),
        }
    }

    /// After the query was executed: the table. `rows` is the result set, or
    /// the database's diagnostic text where the execution failed; that text
    /// is handed on as it is.
    pub fn normalized_table(sql_query: String, rows: Result<Vec<NativeRow>, String>) -> (result:
        Result<Table, OrbiterError>)
        ensures
            match rows {
                Ok(found) => match table_of(sql_query@, rows_view(found@)) {
                    Some(t) => result is Ok && result->Ok_0@ == t,
                    None => result == Err::<Table, OrbiterError>(
                        OrbiterError::UnsupportedValueKind,
                    ),
                },
                Err(words) => result == Err::<Table, OrbiterError>(
                    OrbiterError::QueryExecutionError(words),
                ),
            },
    {
        match rows {
            Ok(found) => build_table(sql_query, &found),
            Err(words) => Err(OrbiterError::QueryExecutionError(words)),
        }
    }
}


/// How far a request has come.
#[derive(Clone, Debug, PartialEq, Eq)]
pub enum Stage {
    /// Nothing was asked yet.
    Idle,
    /// The prompt is with the model.
    AwaitingCompletion,
    /// The query, held here, is with the database.
    AwaitingRows(String),
    /// The request has ended, with a table or with a failure.
    Finished,
}

/// What the caller reports to the orbiter.
#[derive(Debug, PartialEq, Eq)]
pub enum Event {
    /// A request in natural language.
    Request(String),
    /// The model's answer, or the backend's words where the call failed.
    Completion(Result<Vec<ChatMessage>, String>),
    /// The result set, or the database's words where the execution failed.
    Rows(Result<Vec<NativeRow>, String>),
}

/// What the orbiter asks the caller to do next.
#[derive(Clone, Debug, PartialEq, Eq)]
pub enum Action {
    /// Send these messages to the model and report its completion.
    InvokeModel(Vec<ChatMessage>),
    /// Execute this query as one statement and report its rows.
    ExecuteQuery(String),
    /// Hand this table to whoever asked.
    Deliver(Table),
    /// The request has failed with this error.
    Fail(OrbiterError),
}

impl DatabaseOrbiter {
    /// The steps of a request. From `Idle` a request leads to the model, or
    /// fails on a malformed template. A completion leads to the database
    /// with the assistant's last reply as the query, or fails. Rows lead to
    /// the table, or fail. Every failure finishes the request, and an event
    /// that the stage does not wait for changes nothing and asks for nothing.
    pub open spec fn steps(
        &self,
        stage: Stage,
        event: Event,
        next: Stage,
        action: Option<Action>,
    ) -> bool {
        match (stage, event) {
            (Stage::Idle, Event::Request(text)) => match self.prompt_for(text@) {
                Some(prompt) => (action matches Some(Action::InvokeModel(messages))
                    && messages_view(messages@) == prompt) && next == Stage::AwaitingCompletion,
                None => action == Some(Action::Fail(OrbiterError::MalformedTemplate)) && next
                    == Stage::Finished,
            },
            (Stage::AwaitingCompletion, Event::Completion(Ok(completion))) => match last_reply(
                messages_view(completion@),
            ) {
                Some(sql) => (action matches Some(Action::ExecuteQuery(query)) && query@ == sql)
                    && (next matches Stage::AwaitingRows(held) && held@ == sql),
                None => (action matches Some(Action::Fail(OrbiterError::UpstreamError(why)))
                    && why@ == no_reply_text()) && next == Stage::Finished,
            },
            (Stage::AwaitingCompletion, Event::Completion(Err(words))) => action == Some(
                Action::Fail(OrbiterError::UpstreamError(words)),
            ) && next == Stage::Finished,
            (Stage::AwaitingRows(sql), Event::Rows(Ok(rows))) => match table_of(
                sql@,
                rows_view(rows@),
            ) {
                Some(t) => (action matches Some(Action::Deliver(table)) && table@ == t) && next
                    == Stage::Finished,
                None => action == Some(Action::Fail(OrbiterError::UnsupportedValueKind)) && next
                    == Stage::Finished,
            },
            (Stage::AwaitingRows(_), Event::Rows(Err(words))) => action == Some(
                Action::Fail(OrbiterError::QueryExecutionError(words)),
            ) && next == Stage::Finished,
            _ => action is None && next == stage,
        }
    }

    /// Takes one step: from the stage that a request is in and the event that
    /// the caller reports to the next stage and what the caller is to do.
    pub fn advance(&self, stage: Stage, event: Event) -> (step: (Stage, Option<Action>))
        ensures
            self.steps(stage, event, step.0, step.1),
    {
        match stage {
            Stage::Idle => match event {
                Event::Request(text) => match self.compile_prompt(text.as_str()) {
                    Ok(messages) => (
                        Stage::AwaitingCompletion,
                        Some(Action::InvokeModel(messages)),
                    ),
                    Err(e) => (Stage::Finished, Some(Action::Fail(e))),
                },
                _ => (Stage::Idle, None),
            },
            Stage::AwaitingCompletion => match event {
                Event::Completion(completion) => match Self::generated_sql(completion) {
                    Ok(sql) => {
                        let held = sql.clone();
                        (Stage::AwaitingRows(held), Some(Action::ExecuteQuery(sql)))
                    },
                    Err(e) => (Stage::Finished, Some(Action::Fail(e))),
                },
                _ => (Stage::AwaitingCompletion, None),
            },
            Stage::AwaitingRows(sql) => match event {
                Event::Rows(rows) => match Self::normalized_table(sql, rows) {
                    Ok(table) => (Stage::Finished, Some(Action::Deliver(table))),
                    Err(e) => (Stage::Finished, Some(Action::Fail(e))),
                },
                _ => (Stage::AwaitingRows(sql), None),
            },
            Stage::Finished => (Stage::Finished, None),
        }
    }

    /// A failure is terminal: the step that reports one finishes the request.
    pub proof fn lemma_failure_finishes(
        &self,
        stage: Stage,
        event: Event,
        next: Stage,
        action: Option<Action>,
    )
        requires
            self.steps(stage, event, next, action),
            action matches Some(Action::Fail(_)),
        ensures
            next == Stage::Finished,
    {
    }

    /// A finished request stays finished and asks for nothing more: no stage
    /// is run again.
    pub proof fn lemma_finished_stays(&self, event: Event, next: Stage, action: Option<Action>)
        requires
            self.steps(Stage::Finished, event, next, action),
        ensures
            next == Stage::Finished,
            action is None,
    {
    }

    /// No query without a reply: a query is executed only after a completion
    /// that holds a message of the assistant, and it is the text of the last
    /// such message.
    pub proof fn lemma_query_is_the_reply(
        &self,
        stage: Stage,
        event: Event,
        next: Stage,
        action: Option<Action>,
    )
        requires
            self.steps(stage, event, next, action),
            action matches Some(Action::ExecuteQuery(_)),
        ensures
            stage == Stage::AwaitingCompletion,
            event matches Event::Completion(Ok(completion)) && last_reply(
                messages_view(completion@),
            ) == Some(action->Some_0->ExecuteQuery_0@),
    {
    }

    /// A table is delivered only for rows, and it holds the query that the
    /// stage held: the text that was executed.
    pub proof fn lemma_table_keeps_query(
        &self,
        stage: Stage,
        event: Event,
        next: Stage,
        action: Option<Action>,
    )
        requires
            self.steps(stage, event, next, action),
            action matches Some(Action::Deliver(_)),
        ensures
            stage matches Stage::AwaitingRows(sql) && action->Some_0->Deliver_0@.sql_query == sql@,
            event matches Event::Rows(Ok(_)),
    {
    }
}

} // verus!
