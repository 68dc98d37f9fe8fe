//! Recovering card numbers from the logs of a confirmed transaction.
use vstd::prelude::*;

verus! {

/// One log record of a transaction receipt: its topics, each as raw bytes.
pub struct LogRecord {
    pub topics: Vec<Vec<u8>>,
}

/// The number of values on a card.
pub const CARD_SIZE: usize = 25;

/// The receipt carries a card: its first log has a second topic of exactly
/// one byte per card value.
pub open spec fn carries_card(logs: Seq<LogRecord>) -> bool {
    &&& logs.len() > 0
    &&& logs[0].topics@.len() > 1
    &&& logs[0].topics@[1]@.len() == CARD_SIZE
}

/// Reads the card numbers out of a receipt's logs: the bytes of the first
/// log's second topic, one value per byte, in order.
pub fn extract_card_numbers_from_receipt(logs: &Vec<LogRecord>) -> (r: Result<Vec<u32>, String>)
    ensures
        r is Ok <==> carries_card(logs@),
        r is Ok ==> ({
            let card = r->Ok_0@;
            let topic = logs@[0].topics@[1]@;
            card.len() == CARD_SIZE && forall|i: int| 0 <= i < CARD_SIZE ==> #[trigger] card[i] == topic[i] as u32
        }),
        r is Err ==> r->Err_0@ == "Failed to extract card numbers from receipt"@,
{
    if logs.len() > 0 && logs[0].topics.len() > 1 && logs[0].topics[1].len() == CARD_SIZE {
        let topic = &logs[0].topics[1];
        let mut card: Vec<u32> = Vec::new();
        let mut i: usize = 0;
        while i < topic.len()
            invariant
                i <= topic@.len(),
                card@.len() == i,
                forall|j: int| 0 <= j < i ==> #[trigger] card@[j] == topic@[j] as u32,
            decreases topic@.len() - i,
        {
            card.push(topic[i] as u32);
            i += 1;
        }
        Ok(card)
    } else {
        Err(String::from_str("Failed to extract card numbers from receipt"))
    }
}

} // verus!
