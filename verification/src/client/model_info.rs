//! A model of a provider, its token ceiling, and the token cost of a
//! conversation sent to it.

use crate::client::message::{Message, MessageRole};
use crate::utils::tokens::{count_tokens, token_count};
use vstd::prelude::*;

verus! {

/// How a provider counts tokens: what each message costs on top of its
/// content, and a fixed amount added to every conversation.
pub type TokensCountFactors = (usize, usize);

/// The conversation would reach or pass the model's token ceiling.
#[derive(Debug, Clone, Copy, PartialEq, Eq, Structural)]
pub struct LimitExceeded;

impl LimitExceeded {
    /// What the failure says.
    pub open spec fn spec_message() -> Seq<char> {
        "Exceed max tokens limit"@
    }

    /// What the failure says.
    pub fn message(&self) -> (text: String)
        ensures
            text@ == Self::spec_message(),
    {
        "Exceed max tokens limit".to_owned()
    }
}

/// A model of a provider.
#[derive(Debug)]
pub struct ModelInfo {
    /// The client that serves the model.
    pub client: String,
    /// The model's name.
    pub name: String,
    /// Position of the client in the configured list of clients.
    pub index: usize,
    /// The most tokens a conversation may cost, where the model has a ceiling.
    pub max_tokens: Option<usize>,
    /// Per-message overhead and bias.
    pub tokens_count_factors: TokensCountFactors,
}

/// Tokens of the contents of all messages together.
pub open spec fn tokens_sum(messages: Seq<Message>) -> nat
    decreases messages.len(),
{
    if messages.len() == 0 {
        0
    } else {
        tokens_sum(messages.drop_last()) + token_count(messages.last().content@)
    }
}

/// Number of messages that cost the per-message overhead: all of them when
/// the last one is the user's, all but the last one otherwise.
pub open spec fn counted_messages(messages: Seq<Message>) -> nat {
    if messages.len() == 0 {
        0
    } else if messages.last().role == MessageRole::User {
        messages.len()
    } else {
        (messages.len() - 1) as nat
    }
}

/// Token cost of a conversation with a per-message overhead: nothing for an
/// empty one, else the overhead for each counted message and the tokens of
/// all contents.
pub open spec fn conversation_tokens(per_message: nat, messages: Seq<Message>) -> nat {
    if messages.len() == 0 {
        0
    } else {
        counted_messages(messages) * per_message + tokens_sum(messages)
    }
}

/// The content tokens of a part of a conversation are no more than those of
/// the whole.
pub proof fn lemma_tokens_sum_prefix(messages: Seq<Message>, n: int)
    requires
        0 <= n <= messages.len(),
    ensures
        tokens_sum(messages.take(n)) <= tokens_sum(messages),
    decreases messages.len() - n,
{
    if n < messages.len() {
        lemma_tokens_sum_prefix(messages, n + 1);
        assert(messages.take(n + 1).drop_last() =~= messages.take(n));
    } else {
        assert(messages.take(n) =~= messages);
    }
}

/// Tokens of the contents of all messages together, where that fits.
fn checked_messages_tokens(messages: &[Message]) -> (sum: Option<usize>)
    ensures
        sum is Some <==> tokens_sum(messages@) <= usize::MAX,
        sum is Some ==> sum->0 == tokens_sum(messages@),
{
    let mut sum: usize = 0;
    let mut i: usize = 0;
    while i < messages.len()
        invariant
            i <= messages.len(),
            sum == tokens_sum(messages@.take(i as int)),
        decreases messages.len() - i,
    {
        let tokens = count_tokens(messages[i].content.as_str());
        proof {
            assert(messages@.take(i + 1).drop_last() =~= messages@.take(i as int));
        }
        match sum.checked_add(tokens) {
            Some(next) => {
                sum = next;
            },
            None => {
                proof {
                    lemma_tokens_sum_prefix(messages@, i + 1);
                }
                return None;
            },
        }
        i = i + 1;
    }
    proof {
        assert(messages@.take(i as int) =~= messages@);
    }
    Some(sum)
}

impl ModelInfo {
    /// Token cost of the conversation for this model, the bias left out.
    pub open spec fn spec_total_tokens(&self, messages: Seq<Message>) -> nat {
        conversation_tokens(self.tokens_count_factors.0 as nat, messages)
    }

    /// A model without a token ceiling, with no overhead and no bias.
    pub fn new(index: usize, client: &str, name: &str) -> (info: Self)
        ensures
            info.index == index,
            info.client@ == client@,
            info.name@ == name@,
            info.max_tokens is None,
            info.tokens_count_factors == (0usize, 0usize),
    {
        ModelInfo {
            index,
            client: client.to_owned(),
            name: name.to_owned(),
            max_tokens: None,
            tokens_count_factors: (0, 0),
        }
    }

    /// The model with another token ceiling. A ceiling of zero means none.
    pub fn set_max_tokens(self, max_tokens: Option<usize>) -> (info: Self)
        ensures
            info.max_tokens == if max_tokens == Some(0usize) {
                None
            } else {
                max_tokens
            },
            info.client == self.client,
            info.name == self.name,
            info.index == self.index,
            info.tokens_count_factors == self.tokens_count_factors,
    {
        let mut info = self;
        match max_tokens {
            None => {
                info.max_tokens = None;
            },
            Some(limit) => {
                if limit == 0 {
                    info.max_tokens = None;
                } else {
                    info.max_tokens = max_tokens;
                }
            },
        }
        info
    }

    /// The model with other token-count factors.
    pub fn set_tokens_count_factors(self, tokens_count_factors: TokensCountFactors) -> (info: Self)
        ensures
            info.tokens_count_factors == tokens_count_factors,
            info.client == self.client,
            info.name == self.name,
            info.index == self.index,
            info.max_tokens == self.max_tokens,
    {
        let mut info = self;
        info.tokens_count_factors = tokens_count_factors;
        info
    }

    /// The model's identifier: client and name with a colon between them.
    pub fn id(&self) -> (id: String)
        ensures
            id@ == self.client@.push(':') + self.name@,
    {
        let mut id = self.client.clone();
        id.push(':');
        id.append(self.name.as_str());
        id
    }

    /// Tokens of the contents of all messages together.
    pub fn messages_tokens(&self, messages: &[Message]) -> (tokens: usize)
        requires
            tokens_sum(messages@) <= usize::MAX,
        ensures
            tokens == tokens_sum(messages@),
    {
        match checked_messages_tokens(messages) {
            Some(tokens) => tokens,
            None => 0,
        }
    }

    /// Token cost of the conversation for this model, the bias left out.
    pub fn total_tokens(&self, messages: &[Message]) -> (tokens: usize)
        requires
            self.spec_total_tokens(messages@) <= usize::MAX,
        ensures
            tokens == self.spec_total_tokens(messages@),
            messages@.len() == 0 ==> tokens == 0,
            messages@.len() > 0 && messages@.last().role == MessageRole::User ==> tokens
                == messages@.len() * self.tokens_count_factors.0 + tokens_sum(messages@),
            messages@.len() > 0 && messages@.last().role != MessageRole::User ==> tokens == (
            messages@.len() - 1) * self.tokens_count_factors.0 + tokens_sum(messages@),
    {
        match self.checked_total_tokens(messages) {
            Some(tokens) => tokens,
            None => 0,
        }
    }

    /// Token cost of the conversation for this model, the bias left out,
    /// where that fits.
    pub fn checked_total_tokens(&self, messages: &[Message]) -> (tokens: Option<usize>)
        ensures
            tokens is Some <==> self.spec_total_tokens(messages@) <= usize::MAX,
            tokens is Some ==> tokens->0 == self.spec_total_tokens(messages@),
    {
        if messages.len() == 0 {
            return Some(0);
        }
        let num_messages = messages.len();
        let per_messages = self.tokens_count_factors.0;
        let counted = if messages[num_messages - 1].role.is_user() {
            num_messages
        } else {
            num_messages - 1
        };
        let ghost product = counted_messages(messages@) * (per_messages as nat);
        proof {
            assert(product >= 0) by (nonlinear_arith)
                requires
                    product == counted_messages(messages@) * (per_messages as nat),
            ;
        }
        let message_tokens = match checked_messages_tokens(messages) {
            Some(tokens) => tokens,
            None => {
                return None;
            },
        };
        match counted.checked_mul(per_messages) {
            Some(overhead) => overhead.checked_add(message_tokens),
            None => None,
        }
    }

    /// Whether the conversation stays under the model's token ceiling. With a
    /// ceiling, the cost of the conversation and the bias together must be
    /// less than it: a conversation that reaches the ceiling exactly is
    /// refused too. Without a ceiling every conversation passes.
    pub fn max_tokens_limit(&self, messages: &[Message]) -> (result: Result<(), LimitExceeded>)
        ensures
            result is Err <==> self.max_tokens is Some && self.spec_total_tokens(messages@)
                + self.tokens_count_factors.1 >= self.max_tokens->0,
    {
        let bias = self.tokens_count_factors.1;
        match self.max_tokens {
            None => Ok(()),
            Some(max_tokens) => {
                let within = match self.checked_total_tokens(messages) {
                    Some(total) => match total.checked_add(bias) {
                        Some(with_bias) => with_bias < max_tokens,
                        None => false,
                    },
                    None => false,
                };
                if within {
                    Ok(())
                } else {
                    Err(LimitExceeded)
                }
            },
        }
    }
}

impl Clone for ModelInfo {
    fn clone(&self) -> (copy: Self)
        ensures
            copy == *self,
    {
        ModelInfo {
            client: self.client.clone(),
            name: self.name.clone(),
            index: self.index,
            max_tokens: self.max_tokens,
            tokens_count_factors: (self.tokens_count_factors.0, self.tokens_count_factors.1),
        }
    }
}

impl Default for ModelInfo {
    /// The model at position zero, with an empty client and name.
    fn default() -> (info: Self)
        ensures
            info.index == 0,
            info.client@ == Seq::<char>::empty(),
            info.name@ == Seq::<char>::empty(),
            info.max_tokens is None,
            info.tokens_count_factors == (0usize, 0usize),
    {
        let info = ModelInfo::new(0, "", "");
        proof {
            reveal_strlit("");
            assert(""@ =~= Seq::<char>::empty());
        }
        info
    }
}

} // verus!
