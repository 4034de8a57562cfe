use vstd::prelude::*;

use crate::clients::{failed_clients, lemma_without_contains, undelivered, views, without, ClientNames};
use crate::proto::ChatMessage;

verus! {

/// The chat room: the names of the users who listen for messages.
pub struct Chat {
    chat_clients: ClientNames,
}

impl Chat {
    /// The names of the listening users.
    pub closed spec fn client_names(&self) -> Seq<Seq<char>> {
        self.chat_clients@
    }

    pub fn new() -> (c: Chat)
        ensures
            c.client_names() == Seq::<Seq<char>>::empty(),
    {
        Chat { chat_clients: ClientNames::new() }
    }

    /// A user starts to listen.
    pub fn add_client(&mut self, name: String)
        ensures
            final(self).client_names() == if old(self).client_names().contains(name@) {
                old(self).client_names()
            } else {
                old(self).client_names().push(name@)
            },
    {
        self.chat_clients.insert(name);
    }

    /// The listeners that `message` goes to: everyone but its author.
    pub fn recipients(&self, message: &ChatMessage) -> (r: Vec<String>)
        ensures
            views(r@) == without(self.client_names(), seq![message.user@]),
            views(r@).no_duplicates(),
    {
        let mut author: Vec<String> = Vec::new();
        author.push(message.user.clone());
        assert(views(author@) =~= seq![message.user@]);
        self.chat_clients.names_without(&author)
    }

    /// After a message went out to `sent_to`, drops each listener whose
    /// send (`delivered[i]`) failed.
    pub fn update_clients(&mut self, sent_to: &Vec<String>, delivered: &Vec<bool>)
        requires
            sent_to.len() == delivered.len(),
        ensures
            final(self).client_names() == without(
                old(self).client_names(),
                undelivered(views(sent_to@), delivered@),
            ),
    {
        let to_be_removed = failed_clients(sent_to, delivered);
        self.chat_clients.remove_clients(&to_be_removed);
    }
}

/// A chat message reaches exactly the listeners other than its author.
pub proof fn lemma_message_reaches_all_but_author(chat: Chat, message: ChatMessage, name: Seq<char>)
    ensures
        without(chat.client_names(), seq![message.user@]).contains(name) <==> (
        chat.client_names().contains(name) && name != message.user@),
{
    lemma_without_contains(chat.client_names(), seq![message.user@], name);
    assert(seq![message.user@].contains(name) <==> name == message.user@) by {
        if name == message.user@ {
            assert(seq![message.user@][0] == name);
        }
    }
}

} // verus!
