//! Currency extraction from market symbols.

use vstd::prelude::*;
use vstd::string::StrSliceExecFns;

use crate::text::{chars_of, find_from, find_sub_from, lemma_find_from_exists};

verus! {

/// The currency named by a market symbol: funding symbols drop the leading
/// funding marker; trading symbols take what follows the colon delimiter
/// (multi-character quote currencies) or, without one, drop the marker and a
/// classic three-letter base currency; anything else is kept whole.
pub open spec fn ccy_of_symbol(s: Seq<char>) -> Seq<char> {
    if s.len() > 0 && s[0] == 'f' {
        s.skip(1)
    } else if s.len() > 0 && s[0] == 't' {
        match find_from(s, seq![':'], 0) {
            Some(i) => s.skip(i + 1),
            None => s.skip(4),
        }
    } else {
        s
    }
}

/// Extracts the currency a symbol names, as `ccy_of_symbol` describes.  A
/// colon-free trading symbol must carry at least four characters.
pub fn parse_ccy_from_symbol(symbol: &str) -> (r: &str)
    requires
        (symbol@.len() > 0 && symbol@[0] == 't' && find_from(symbol@, seq![':'], 0) is None)
            ==> symbol@.len() >= 4,
    ensures
        r@ == ccy_of_symbol(symbol@),
{
    let n = symbol.unicode_len();
    if n == 0 {
        return symbol;
    }
    let c0 = symbol.get_char(0);
    if c0 == 'f' {
        let r = symbol.substring_char(1, n);
        proof {
            assert(r@ =~= symbol@.skip(1));
        }
        r
    } else if c0 == 't' {
        let cs = chars_of(symbol);
        let colon = chars_of(":");
        proof {
            reveal_strlit(":");
            assert(colon@ =~= seq![':']);
        }
        match find_sub_from(&cs, &colon, 0) {
            Some(i) => {
                proof {
                    lemma_find_from_exists(symbol@, seq![':'], 0);
                }
                let r = symbol.substring_char(i + 1, n);
                proof {
                    assert(r@ =~= symbol@.skip(i + 1));
                }
                r
            },
            None => {
                let r = symbol.substring_char(4, n);
                proof {
                    assert(r@ =~= symbol@.skip(4));
                }
                r
            },
        }
    } else {
        symbol
    }
}

} // verus!
