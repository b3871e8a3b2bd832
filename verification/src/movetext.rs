//! The movetext assembler: folds a stream of move records into numbered
//! movetext and wraps it with the result header and trailing outcome token.

use vstd::prelude::*;
use crate::notation::{san_spec, get_san, MoveRecord};
use crate::outcome::Outcome;
use crate::text::{dec_str, num_to_string};

verus! {

/// The text one record contributes: White moves (even indices) carry a move
/// number prefix `"<n>. "` with n counted from 1, Black moves none, and every
/// token is followed by one space.
pub open spec fn chunk_spec(rec: MoveRecord, i: int) -> Seq<char> {
    number_prefix_spec(i) + san_spec(rec) + seq![' ']
}

/// The move-number prefix of the record at index `i`.
pub open spec fn number_prefix_spec(i: int) -> Seq<char> {
    if i % 2 == 0 {
        dec_str((i / 2 + 1) as nat) + seq!['.', ' ']
    } else {
        Seq::<char>::empty()
    }
}

/// The movetext of the first `n` records.
pub open spec fn movetext_upto(recs: Seq<MoveRecord>, n: int) -> Seq<char>
    decreases n,
{
    if n <= 0 {
        Seq::<char>::empty()
    } else {
        movetext_upto(recs, n - 1) + chunk_spec(recs[n - 1], n - 1)
    }
}

/// The full movetext of a record stream.
pub open spec fn movetext_spec(recs: Seq<MoveRecord>) -> Seq<char> {
    movetext_upto(recs, recs.len() as int)
}

/// Assembles the movetext of the records: each token from the notation
/// generator, White tokens prefixed with a strictly increasing move number
/// starting at 1.
pub fn assemble_movetext(records: &Vec<MoveRecord>) -> (s: String)
    ensures
        s@ == movetext_spec(records@),
{
    let mut s = String::new();
    let n = records.len();
    let mut i: usize = 0;
    while i < n
        invariant
            i <= n,
            n == records@.len(),
            s@ == movetext_upto(records@, i as int),
        decreases n - i,
    {
        if i % 2 == 0 {
            let num = num_to_string(i / 2 + 1);
            s.append(num.as_str());
            proof {
                reveal_strlit(". ");
                assert(". "@ =~= seq!['.', ' ']);
            }
            s.append(". ");
        }
        let token = get_san(&records[i]);
        s.append(token.as_str());
        proof {
            reveal_strlit(" ");
            assert(" "@ =~= seq![' ']);
        }
        s.append(" ");
        proof {
            assert(s@ =~= movetext_upto(records@, i as int + 1));
        }
        i = i + 1;
    }
    s
}

/// The full converted text of a game: the result header naming the outcome
/// token, a blank line, the movetext, and the outcome token once more.
pub open spec fn game_text_spec(recs: Seq<MoveRecord>, outcome: Outcome) -> Seq<char> {
    "[Result \""@ + outcome.token_spec() + "\"]\n\n"@ + movetext_spec(recs)
        + outcome.token_spec()
}

/// Renders a whole game: header line with the outcome token, blank line,
/// numbered movetext, and the outcome token appended once more.
pub fn render_game(records: &Vec<MoveRecord>, outcome: Outcome) -> (s: String)
    ensures
        s@ == game_text_spec(records@, outcome),
{
    let mut s = String::from_str("[Result \"");
    s.append(outcome.token());
    s.append("\"]\n\n");
    let body = assemble_movetext(records);
    s.append(body.as_str());
    s.append(outcome.token());
    proof {
        assert(s@ =~= game_text_spec(records@, outcome));
    }
    s
}

/// The move-number labels among the first `n` records: one label for each
/// White move, in the order emitted.
pub open spec fn labels_upto(n: int) -> Seq<int>
    decreases n,
{
    if n <= 0 {
        Seq::<int>::empty()
    } else if (n - 1) % 2 == 0 {
        labels_upto(n - 1) + seq![(n - 1) / 2 + 1]
    } else {
        labels_upto(n - 1)
    }
}

/// Law: for `n` half-moves the movetext carries exactly `ceil(n / 2)`
/// move-number labels, and they increase strictly by 1 from 1: the k-th
/// label, which `number_prefix_spec` renders before the k-th White move's
/// token, is `k + 1`.
pub proof fn lemma_move_numbers(n: int)
    requires
        0 <= n,
    ensures
        labels_upto(n).len() == (n + 1) / 2,
        forall|k: int| 0 <= k < labels_upto(n).len() ==> labels_upto(n)[k] == k + 1,
    decreases n,
{
    if n > 0 {
        lemma_move_numbers(n - 1);
    }
}

/// Law: the k-th move-number label belongs to the record at index `2 k` — a
/// White move — and is rendered as `"<k + 1>. "`, while the following Black
/// move carries no label at all.
pub proof fn lemma_number_prefix(k: int)
    requires
        0 <= k,
    ensures
        number_prefix_spec(2 * k) == dec_str((k + 1) as nat) + seq!['.', ' '],
        number_prefix_spec(2 * k + 1) == Seq::<char>::empty(),
{
}

} // verus!
