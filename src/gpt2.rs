use vstd::prelude::*;

use crate::conversation::{LogItem, TransformerKind};

verus! {

/// Settings of a local engine; it has none yet.
#[derive(Debug, Clone)]
pub struct Configuration {}

/// A session served by a local engine. It keeps a log but generates nothing.
#[derive(Debug)]
pub struct GPT2MessageHandler {
    pub transformer: TransformerKind,
    pub message_log: Vec<LogItem>,
    pub configuration: Configuration,
}

impl GPT2MessageHandler {
    pub fn new(transformer: TransformerKind) -> (r: GPT2MessageHandler)
        ensures
            r.transformer == transformer,
            r.message_log@.len() == 0,
    {
        let configuration = transformer.default_gpt2_configuration();
        GPT2MessageHandler { transformer, message_log: Vec::new(), configuration }
    }

    /// Empties the log; the transformer stays.
    pub fn reset(&mut self)
        ensures
            final(self).message_log@.len() == 0,
            final(self).transformer == old(self).transformer,
    {
        self.message_log.clear();
    }
}

} // verus!
