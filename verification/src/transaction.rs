//! Transactions as they arrive, the entries that the journal keeps of them,
//! and the one way in which applying a transaction can fail.

use crate::amount::Amount;
use vstd::prelude::*;

verus! {

/// The five kinds of transaction. Deposits and withdrawals are standard: they
/// move funds and are journaled. Disputes, resolves and chargebacks are meta:
/// they refer to a journaled transaction by its identifier.
#[derive(Clone, Copy, Debug, PartialEq, Eq, Structural)]
pub enum TransactionType {
    Deposit,
    Withdrawal,
    Dispute,
    Resolve,
    ChargeBack,
}

/// Whether a byte is ASCII white space: space, tab, line feed, form feed or
/// carriage return.
pub open spec fn is_blank(byte: u8) -> bool {
    byte == 32 || byte == 9 || byte == 10 || byte == 12 || byte == 13
}

/// The byte with an ASCII capital letter turned into its small letter.
pub open spec fn lowered(byte: u8) -> u8 {
    if 65 <= byte <= 90 {
        (byte + 32) as u8
    } else {
        byte
    }
}

/// Whether `text` is blank before `start` and from `end` on.
pub open spec fn framed(text: Seq<u8>, start: int, end: int) -> bool {
    &&& 0 <= start <= end <= text.len()
    &&& forall|i: int| 0 <= i < start ==> is_blank(#[trigger] text[i])
    &&& forall|i: int| end <= i < text.len() ==> is_blank(#[trigger] text[i])
}

/// Whether `text` holds `word` from `start` on, whatever the case of its
/// letters.
pub open spec fn reads_as(text: Seq<u8>, start: int, word: Seq<u8>) -> bool {
    &&& 0 <= start
    &&& start + word.len() <= text.len()
    &&& forall|i: int| 0 <= i < word.len() ==> lowered(text[start + i]) == #[trigger] word[i]
}

/// Whether `text` is `word`, whatever the case of its letters, with nothing
/// but white space around it.
pub open spec fn spells(text: Seq<u8>, word: Seq<u8>) -> bool {
    exists|start: int| #[trigger]
        framed(text, start, start + word.len()) && reads_as(text, start, word)
}

impl TransactionType {
    /// The word for the kind in an input record, in ASCII: `deposit`,
    /// `withdrawal`, `dispute`, `resolve`, `chargeback`.
    pub open spec fn keyword(self) -> Seq<u8> {
        match self {
            TransactionType::Deposit => seq![100u8, 101u8, 112u8, 111u8, 115u8, 105u8, 116u8],
            TransactionType::Withdrawal => seq![
                119u8,
                105u8,
                116u8,
                104u8,
                100u8,
                114u8,
                97u8,
                119u8,
                97u8,
                108u8,
            ],
            TransactionType::Dispute => seq![100u8, 105u8, 115u8, 112u8, 117u8, 116u8, 101u8],
            TransactionType::Resolve => seq![114u8, 101u8, 115u8, 111u8, 108u8, 118u8, 101u8],
            TransactionType::ChargeBack => seq![
                99u8,
                104u8,
                97u8,
                114u8,
                103u8,
                101u8,
                98u8,
                97u8,
                99u8,
                107u8,
            ],
        }
    }

    /// The kind that `text` names, if it names one.
    pub open spec fn named_by(text: Seq<u8>) -> Option<TransactionType> {
        if spells(text, TransactionType::Deposit.keyword()) {
            Some(TransactionType::Deposit)
        } else if spells(text, TransactionType::Withdrawal.keyword()) {
            Some(TransactionType::Withdrawal)
        } else if spells(text, TransactionType::Dispute.keyword()) {
            Some(TransactionType::Dispute)
        } else if spells(text, TransactionType::Resolve.keyword()) {
            Some(TransactionType::Resolve)
        } else if spells(text, TransactionType::ChargeBack.keyword()) {
            Some(TransactionType::ChargeBack)
        } else {
            None
        }
    }

    /// Reads the kind of a transaction from the bytes of a field of an input
    /// record: one of the five words, in any case, with any white space
    /// around it.
    pub fn parse(text: &[u8]) -> (r: Option<TransactionType>)
        ensures
            r == TransactionType::named_by(text@),
    {
        let mut start: usize = 0;
        while start < text.len() && blank(text[start])
            invariant
                start <= text.len(),
                forall|i: int| 0 <= i < start ==> is_blank(#[trigger] text@[i]),
            decreases text.len() - start,
        {
            start = start + 1;
        }
        let mut end: usize = text.len();
        while end > start && blank(text[end - 1])
            invariant
                start <= end <= text.len(),
                forall|i: int| end <= i < text.len() ==> is_blank(#[trigger] text@[i]),
            decreases end,
        {
            end = end - 1;
        }
        let deposit: [u8; 7] = [100, 101, 112, 111, 115, 105, 116];
        let withdrawal: [u8; 10] = [119, 105, 116, 104, 100, 114, 97, 119, 97, 108];
        let dispute: [u8; 7] = [100, 105, 115, 112, 117, 116, 101];
        let resolve: [u8; 7] = [114, 101, 115, 111, 108, 118, 101];
        let chargeback: [u8; 10] = [99, 104, 97, 114, 103, 101, 98, 97, 99, 107];
        proof {
            assert(deposit@ =~= TransactionType::Deposit.keyword());
            assert(withdrawal@ =~= TransactionType::Withdrawal.keyword());
            assert(dispute@ =~= TransactionType::Dispute.keyword());
            assert(resolve@ =~= TransactionType::Resolve.keyword());
            assert(chargeback@ =~= TransactionType::ChargeBack.keyword());
            lemma_spells_between(text@, start as int, end as int, deposit@);
            lemma_spells_between(text@, start as int, end as int, withdrawal@);
            lemma_spells_between(text@, start as int, end as int, dispute@);
            lemma_spells_between(text@, start as int, end as int, resolve@);
            lemma_spells_between(text@, start as int, end as int, chargeback@);
        }
        if holds_word(text, start, end, deposit.as_slice()) {
            Some(TransactionType::Deposit)
        } else if holds_word(text, start, end, withdrawal.as_slice()) {
            Some(TransactionType::Withdrawal)
        } else if holds_word(text, start, end, dispute.as_slice()) {
            Some(TransactionType::Dispute)
        } else if holds_word(text, start, end, resolve.as_slice()) {
            Some(TransactionType::Resolve)
        } else if holds_word(text, start, end, chargeback.as_slice()) {
            Some(TransactionType::ChargeBack)
        } else {
            None
        }
    }

    pub open spec fn spec_is_standard(self) -> bool {
        self is Deposit || self is Withdrawal
    }

    /// Whether the kind is a deposit or a withdrawal.
    #[verifier::when_used_as_spec(spec_is_standard)]
    pub fn is_standard(self) -> (r: bool)
        ensures
            r == self.spec_is_standard(),
    {
        match self {
            TransactionType::Deposit | TransactionType::Withdrawal => true,
            TransactionType::Dispute | TransactionType::Resolve | TransactionType::ChargeBack => false,
        }
    }
}

/// Whether a byte is ASCII white space.
fn blank(byte: u8) -> (r: bool)
    ensures
        r == is_blank(byte),
{
    byte == 32 || byte == 9 || byte == 10 || byte == 12 || byte == 13
}

/// Whether the bytes of `text` from `start` up to `end` are `word`,
/// whatever the case of their letters.
fn holds_word(text: &[u8], start: usize, end: usize, word: &[u8]) -> (r: bool)
    requires
        start <= end <= text@.len(),
    ensures
        r == (end - start == word@.len() && reads_as(text@, start as int, word@)),
{
    if end - start != word.len() {
        return false;
    }
    let mut i: usize = 0;
    while i < word.len()
        invariant
            i <= word@.len(),
            start + word@.len() == end,
            end <= text@.len(),
            forall|j: int| 0 <= j < i ==> lowered(text@[start + j]) == #[trigger] word@[j],
        decreases word@.len() - i,
    {
        let byte = text[start + i];
        let small: u8 = if 65 <= byte && byte <= 90 {
            byte + 32
        } else {
            byte
        };
        if small != word[i] {
            return false;
        }
        i = i + 1;
    }
    true
}

/// Where `text` is blank before `start` and from `end` on, and not blank
/// at either end of what lies between, it spells a word without blanks
/// exactly when that word lies between.
proof fn lemma_spells_between(text: Seq<u8>, start: int, end: int, word: Seq<u8>)
    requires
        framed(text, start, end),
        start == text.len() || !is_blank(text[start]),
        end == start || !is_blank(text[end - 1]),
        word.len() > 0,
        forall|i: int| 0 <= i < word.len() ==> !is_blank(#[trigger] word[i]),
    ensures
        spells(text, word) <==> (end - start == word.len() && reads_as(text, start, word)),
{
    if end - start == word.len() && reads_as(text, start, word) {
        assert(framed(text, start, start + word.len()));
    }
    if spells(text, word) {
        let first = choose|first: int| #[trigger]
            framed(text, first, first + word.len()) && reads_as(text, first, word);
        let last = first + word.len();
        assert(!is_blank(word[0]));
        assert(lowered(text[first + 0]) == word[0]);
        assert(!is_blank(text[first]));
        assert(!is_blank(word[word.len() - 1]));
        assert(lowered(text[first + (word.len() - 1)]) == word[word.len() - 1]);
        assert(!is_blank(text[last - 1]));
        if first < start {
            assert(is_blank(text[first]));
        }
        if start < first {
            assert(is_blank(text[start]));
        }
        if last < end {
            assert(is_blank(text[end - 1]));
        }
        if end < last {
            assert(is_blank(text[last - 1]));
        }
    }
}

/// Why a transaction could not be applied.
#[derive(Clone, Copy, Debug, PartialEq, Eq, Structural)]
pub enum LedgerError {
    /// A deposit or a withdrawal came without an amount.
    MissingAmount,
    /// A balance would have left the range of representable amounts.
    AmountOverflow,
}

/// One decoded input record.
#[derive(Clone, Copy, Debug, PartialEq)]
pub struct Transaction {
    pub transaction_type: TransactionType,
    pub client_id: u16,
    /// For a standard transaction its own identifier; for a meta transaction
    /// the identifier of the transaction it refers to.
    pub transaction_id: u32,
    /// Present on deposits and withdrawals; ignored on the other kinds.
    pub amount: Option<Amount>,
}

impl Transaction {
    /// The amount of the transaction, which a standard transaction must have.
    pub fn amount(&self) -> (r: Result<Amount, LedgerError>)
        ensures
            r == match self.amount {
                Some(amount) => Ok::<Amount, LedgerError>(amount),
                None => Err(LedgerError::MissingAmount),
            },
    {
        match self.amount {
            Some(amount) => Ok(amount),
            None => Err(LedgerError::MissingAmount),
        }
    }
}

/// What the journal keeps of one standard transaction.
#[derive(Clone, Copy, Debug, PartialEq)]
pub struct JournalEntry {
    pub client_id: u16,
    pub transaction_type: TransactionType,
    pub amount: Amount,
    pub disputed: bool,
}

} // verus!
