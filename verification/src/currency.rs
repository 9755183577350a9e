//! The currency tool: exchange rates from the National Bank of Poland. It
//! reads its arguments, builds the address of the rates asked for and
//! checks the reply; rendering the rates, which are floating-point numbers,
//! is the caller's.
use vstd::prelude::*;
use crate::framework::{metadata_is, ToolCategory, ToolError, ToolMetadata, ToolType};
use crate::google::HttpReply;
use crate::json::{as_list, as_nat, as_text, get, lookup, text_at, text_or, JsonValue};
use crate::render::{num_at, number_at, pieces_view, text_piece, Piece, PieceView};
use crate::alpha::{to_upper, uppercase};
use crate::json::lemma_lookup1;
use crate::text::{byte_len, copy_str, decimal, push_decimal};

verus! {

/// The real NBP exchange-rates API root.
pub const NBP_BASE_URL: &'static str = "https://api.nbp.pl/api/exchangerates";

/// The address of the rates asked for: one currency's or a whole table's,
/// on a date, the last `n`, or the current ones.
pub open spec fn rates_url(
    base: Seq<char>,
    table: Seq<char>,
    code: Option<Seq<char>>,
    date: Option<Seq<char>>,
    last: Option<u64>,
) -> Seq<char> {
    let head = match code {
        Some(c) => base + "/rates/"@ + table + "/"@ + c + "/"@,
        None => base + "/tables/"@ + table + "/"@,
    };
    match date {
        Some(d) => head + d + "/"@ + "?format=json"@,
        None => match last {
            Some(n) => head + "last/"@ + decimal(n as nat) + "/"@ + "?format=json"@,
            None => head + "?format=json"@,
        },
    }
}

/// Currency exchange rates from the NBP.
pub struct CurrencyTool {
    pub metadata: ToolMetadata,
    /// The API root talked to.
    pub base_url: String,
}

impl CurrencyTool {
    /// The tool, on the real NBP API.
    pub fn new() -> (t: Self)
        ensures
            t.base_url@ == NBP_BASE_URL@,
            metadata_is(
                t.metadata,
                "5"@,
                "Currency Exchange"@,
                ToolType::Currency,
                "Check currency exchange rates via NBP"@,
                ToolCategory::Financial,
            ),
    {
        Self::with_base_url(NBP_BASE_URL)
    }

    /// The tool, talking to `base_url` instead.
    pub fn with_base_url(base_url: &str) -> (t: Self)
        ensures
            t.base_url@ == base_url@,
            metadata_is(
                t.metadata,
                "5"@,
                "Currency Exchange"@,
                ToolType::Currency,
                "Check currency exchange rates via NBP"@,
                ToolCategory::Financial,
            ),
    {
        CurrencyTool {
            metadata: ToolMetadata::from_parts(
                "5",
                "Currency Exchange",
                ToolType::Currency,
                "Check currency exchange rates via NBP",
                ToolCategory::Financial,
            ),
            base_url: copy_str(base_url),
        }
    }

    /// The table a call asks for (`A` by default).
    pub fn table_of(args: &JsonValue) -> (r: String)
        ensures
            r@ == text_or(*args, seq!["table"], "A"@),
    {
        args.text1_or("table", "A")
    }

    /// The address of the rates a call asks for (its arguments, `None` when
    /// they were not JSON). A date must take ten bytes, as `YYYY-MM-DD` does.
    pub fn request(&self, args: Option<&JsonValue>) -> (r: Result<String, ToolError>)
        ensures
            match args {
                None => r matches Err(e) && e.message@ == "Failed to parse currency tool arguments"@,
                Some(a) => match text_at(*a, seq!["date"]) {
                    Some(d) if byte_len(d) != 10 => r matches Err(e) && e.message@
                        == "Date must be in YYYY-MM-DD format"@,
                    _ => r matches Ok(u) && u@ == rates_url(
                        self.base_url@,
                        text_or(*a, seq!["table"], "A"@),
                        text_at(*a, seq!["code"]),
                        text_at(*a, seq!["date"]),
                        as_nat(lookup(*a, seq!["last"])),
                    ),
                },
            },
    {
        let a = match args {
            Some(a) => a,
            None => {
                return Err(ToolError::msg("Failed to parse currency tool arguments"));
            },
        };
        let code = a.text1("code");
        let table = a.text1_or("table", "A");
        let date = a.text1("date");
        let last = a.u64_1("last");
        match date {
            Some(d) => {
                let cs = crate::text::chars_of(d);
                let (_, within_ten) = crate::text::fitting_prefix(cs.as_slice(), 10);
                let (_, within_nine) = crate::text::fitting_prefix(cs.as_slice(), 9);
                if !within_ten || within_nine {
                    return Err(ToolError::msg("Date must be in YYYY-MM-DD format"));
                }
            },
            None => {},
        }
        let mut u = self.base_url.clone();
        match code {
            Some(c) => {
                u.append("/rates/");
                u.append(table.as_str());
                u.append("/");
                u.append(c);
                u.append("/");
            },
            None => {
                u.append("/tables/");
                u.append(table.as_str());
                u.append("/");
            },
        }
        match date {
            Some(d) => {
                u.append(d);
                u.append("/");
            },
            None => match last {
                Some(n) => {
                    u.append("last/");
                    push_decimal(&mut u, n);
                    u.append("/");
                },
                None => {},
            },
        }
        u.append("?format=json");
        Ok(u)
    }

    /// The rates from the reply (`None` when the request could not be
    /// sent).
    pub fn rates_of(reply: Option<&HttpReply>) -> (r: Result<&JsonValue, ToolError>)
        ensures
            match reply {
                None => r matches Err(e) && e.message@ == "Failed to request currency data from NBP API"@,
                Some(h) => if !h.success {
                    r matches Err(e) && e.message@ == "NBP API returned error "@ + h.status@ + ": "@
                        + h.text@
                } else {
                    match h.json {
                        None => r matches Err(e) && e.message@ == "Failed to parse NBP API response"@,
                        Some(d) => r matches Ok(x) && *x == d,
                    }
                },
            },
    {
        let h = match reply {
            None => {
                return Err(ToolError::msg("Failed to request currency data from NBP API"));
            },
            Some(h) => h,
        };
        if !h.success {
            let mut m = copy_str("NBP API returned error ");
            m.append(h.status.as_str());
            m.append(": ");
            m.append(h.text.as_str());
            return Err(ToolError::new(m));
        }
        match &h.json {
            None => Err(ToolError::msg("Failed to parse NBP API response")),
            Some(d) => Ok(d),
        }
    }
}

// ---------------------------------------------------------------------------
// Rendering: text, and the rates, which the caller writes with four
// decimals.
// ---------------------------------------------------------------------------

/// One rate of a single currency's history.
pub open spec fn history_rate(rate: JsonValue) -> Seq<PieceView> {
    let date = text_or(rate, seq!["effectiveDate"], "Unknown Date"@);
    match num_at(rate, "mid"@) {
        Some(m) => seq![
            PieceView::Text("  📅 "@ + date + ": **"@),
            PieceView::Number(Some(m), 4),
            PieceView::Text(" PLN**\n"@),
        ],
        None => seq![
            PieceView::Text("  📅 "@ + date + ": Bid: **"@),
            PieceView::Number(num_at(rate, "bid"@), 4),
            PieceView::Text(" PLN**, Ask: **"@),
            PieceView::Number(num_at(rate, "ask"@), 4),
            PieceView::Text(" PLN**\n"@),
        ],
    }
}

/// One rate of a table.
pub open spec fn table_rate(rate: JsonValue) -> Seq<PieceView> {
    let head = "  • "@ + text_or(rate, seq!["code"], "???"@) + " ("@ + text_or(rate, seq!["currency"], "Unknown"@)
        + "): "@;
    match num_at(rate, "mid"@) {
        Some(m) => seq![
            PieceView::Text(head + "**"@),
            PieceView::Number(Some(m), 4),
            PieceView::Text(" PLN**\n"@),
        ],
        None => seq![
            PieceView::Text(head + "Bid: **"@),
            PieceView::Number(num_at(rate, "bid"@), 4),
            PieceView::Text("**, Ask: **"@),
            PieceView::Number(num_at(rate, "ask"@), 4),
            PieceView::Text("**\n"@),
        ],
    }
}

/// The pieces of each rate of a currency's history, in order.
pub open spec fn history_rates(items: Seq<JsonValue>) -> Seq<PieceView>
    decreases items.len(),
{
    if items.len() == 0 {
        Seq::empty()
    } else {
        history_rates(items.drop_last()) + history_rate(items.last())
    }
}

/// The pieces of each rate of a table, in order.
pub open spec fn table_rates(items: Seq<JsonValue>) -> Seq<PieceView>
    decreases items.len(),
{
    if items.len() == 0 {
        Seq::empty()
    } else {
        table_rates(items.drop_last()) + table_rate(items.last())
    }
}

/// The rates listed at `rates`, as a table's or as a history's.
pub open spec fn rates_pieces(v: JsonValue, in_table: bool) -> Seq<PieceView> {
    match as_list(get(v, "rates"@)) {
        Some(l) => if in_table {
            table_rates(l)
        } else {
            history_rates(l)
        },
        None => Seq::empty(),
    }
}

/// One table of a list of tables.
pub open spec fn table_pieces(item: JsonValue, table: Seq<char>) -> Seq<PieceView> {
    seq![
        PieceView::Text(
            "📅 **Table "@ + uppercase(table) + " from "@ + text_or(item, seq!["effectiveDate"], "Unknown Date"@)
                + "**\n"@,
        ),
    ] + rates_pieces(item, true) + seq![PieceView::Text("\n"@)]
}

/// The pieces of each table of a list, in order.
pub open spec fn tables_pieces(items: Seq<JsonValue>, table: Seq<char>) -> Seq<PieceView>
    decreases items.len(),
{
    if items.len() == 0 {
        Seq::empty()
    } else {
        tables_pieces(items.drop_last(), table) + table_pieces(items.last(), table)
    }
}

/// The rendering of a reply before the fallback: a currency's history for
/// an object naming a currency, the tables for a list, nothing otherwise.
pub open spec fn reply_pieces(d: JsonValue, table: Seq<char>) -> Seq<PieceView> {
    match d {
        JsonValue::Object(_) => match as_text(get(d, "currency"@)) {
            Some(c) => seq![
                PieceView::Text(
                    "💱 **Exchange Rates for "@ + c + " ("@ + text_or(d, seq!["code"], "???"@) + ")**\n"@,
                ),
            ] + rates_pieces(d, false),
            None => Seq::empty(),
        },
        JsonValue::Array(items) => tables_pieces(items@, table),
        _ => Seq::empty(),
    }
}

/// The rendering of a reply: its pieces, or a note when there are none.
pub open spec fn currency_pieces(d: JsonValue, table: Seq<char>) -> Seq<PieceView> {
    let ps = reply_pieces(d, table);
    if ps.len() == 0 {
        seq![PieceView::Text("No currency data found or format not recognized."@)]
    } else {
        ps
    }
}

fn push_history_rate(out: &mut Vec<Piece>, rate: &JsonValue)
    ensures
        pieces_view(final(out)@) == pieces_view(old(out)@) + history_rate(*rate),
{
    let date = rate.text1_or("effectiveDate", "Unknown Date");
    let ghost before = pieces_view(out@);
    let mut head = copy_str("  📅 ");
    head.append(date.as_str());
    match number_at(rate, "mid") {
        Some(m) => {
            head.append(": **");
            out.push(text_piece(head));
            out.push(Piece::Number(Some(m), 4));
            out.push(text_piece(copy_str(" PLN**\n")));
        },
        None => {
            head.append(": Bid: **");
            out.push(text_piece(head));
            out.push(Piece::Number(number_at(rate, "bid"), 4));
            out.push(text_piece(copy_str(" PLN**, Ask: **")));
            out.push(Piece::Number(number_at(rate, "ask"), 4));
            out.push(text_piece(copy_str(" PLN**\n")));
        },
    }
    assert(pieces_view(out@) =~= before + history_rate(*rate));
}

fn push_table_rate(out: &mut Vec<Piece>, rate: &JsonValue)
    ensures
        pieces_view(final(out)@) == pieces_view(old(out)@) + table_rate(*rate),
{
    let ghost before = pieces_view(out@);
    let mut head = copy_str("  • ");
    head.append(rate.text1_or("code", "???").as_str());
    head.append(" (");
    head.append(rate.text1_or("currency", "Unknown").as_str());
    head.append("): ");
    match number_at(rate, "mid") {
        Some(m) => {
            head.append("**");
            out.push(text_piece(head));
            out.push(Piece::Number(Some(m), 4));
            out.push(text_piece(copy_str(" PLN**\n")));
        },
        None => {
            head.append("Bid: **");
            out.push(text_piece(head));
            out.push(Piece::Number(number_at(rate, "bid"), 4));
            out.push(text_piece(copy_str("**, Ask: **")));
            out.push(Piece::Number(number_at(rate, "ask"), 4));
            out.push(text_piece(copy_str("**\n")));
        },
    }
    assert(pieces_view(out@) =~= before + table_rate(*rate));
}

fn push_rates(out: &mut Vec<Piece>, v: &JsonValue, in_table: bool)
    ensures
        pieces_view(final(out)@) == pieces_view(old(out)@) + rates_pieces(*v, in_table),
{
    let ghost start = pieces_view(out@);
    match (match v.get("rates") {
        Some(x) => x.as_array(),
        None => None,
    }) {
        Some(rs) => {
            let mut i: usize = 0;
            assert(rs@.take(0) =~= Seq::<JsonValue>::empty());
            assert(pieces_view(out@) =~= start + Seq::<PieceView>::empty());
            while i < rs.len()
                invariant
                    i <= rs@.len(),
                    pieces_view(out@) == start + if in_table {
                        table_rates(rs@.take(i as int))
                    } else {
                        history_rates(rs@.take(i as int))
                    },
                decreases rs@.len() - i,
            {
                assert(rs@.take(i + 1).drop_last() =~= rs@.take(i as int));
                assert(rs@.take(i + 1).last() == rs@[i as int]);
                if in_table {
                    push_table_rate(out, &rs[i]);
                } else {
                    push_history_rate(out, &rs[i]);
                }
                assert(pieces_view(out@) =~= start + if in_table {
                    table_rates(rs@.take(i + 1))
                } else {
                    history_rates(rs@.take(i + 1))
                });
                i = i + 1;
            }
            assert(rs@.take(rs@.len() as int) =~= rs@);
        },
        None => {
            assert(pieces_view(out@) =~= start + Seq::<PieceView>::empty());
        },
    }
}

/// Renders an NBP reply for `table`, as pieces: text, and the rates, which
/// the caller writes with four decimals.
pub fn format_currency_response(d: &JsonValue, table: &str) -> (r: Vec<Piece>)
    ensures
        pieces_view(r@) == currency_pieces(*d, table@),
{
    let mut out: Vec<Piece> = Vec::new();
    assert(pieces_view(out@) =~= Seq::<PieceView>::empty());
    match d {
        JsonValue::Object(_) => match d.text1("currency") {
            Some(c) => {
                let mut h = copy_str("💱 **Exchange Rates for ");
                h.append(c);
                h.append(" (");
                h.append(d.text1_or("code", "???").as_str());
                h.append(")**\n");
                proof {
                    lemma_lookup1(*d, "currency");
                }
                let ghost hv = h@;
                out.push(text_piece(h));
                assert(pieces_view(out@) =~= seq![PieceView::Text(hv)]);
                push_rates(&mut out, d, false);
            },
            None => {
                proof {
                    lemma_lookup1(*d, "currency");
                }
            },
        },
        JsonValue::Array(items) => {
            let upper = to_upper(table);
            let mut i: usize = 0;
            assert(items@.take(0) =~= Seq::<JsonValue>::empty());
            while i < items.len()
                invariant
                    i <= items@.len(),
                    upper@ == uppercase(table@),
                    pieces_view(out@) == tables_pieces(items@.take(i as int), table@),
                decreases items@.len() - i,
            {
                assert(items@.take(i + 1).drop_last() =~= items@.take(i as int));
                assert(items@.take(i + 1).last() == items@[i as int]);
                let ghost before = pieces_view(out@);
                let mut h = copy_str("📅 **Table ");
                h.append(upper.as_str());
                h.append(" from ");
                h.append(items[i].text1_or("effectiveDate", "Unknown Date").as_str());
                h.append("**\n");
                let ghost hv = h@;
                out.push(text_piece(h));
                assert(pieces_view(out@) =~= before + seq![PieceView::Text(hv)]);
                let ghost mid = pieces_view(out@);
                push_rates(&mut out, &items[i], true);
                let ghost after = pieces_view(out@);
                assert(after == mid + rates_pieces(items@[i as int], true));
                out.push(text_piece(copy_str("\n")));
                assert(pieces_view(out@) =~= after + seq![PieceView::Text("\n"@)]);
                assert(pieces_view(out@) =~= before + table_pieces(items@[i as int], table@));
                i = i + 1;
            }
            assert(items@.take(items@.len() as int) =~= items@);
        },
        _ => {},
    }
    if out.len() == 0 {
        out.push(text_piece(copy_str("No currency data found or format not recognized.")));
        assert(pieces_view(out@) =~= seq![PieceView::Text("No currency data found or format not recognized."@)]);
    }
    out
}

} // verus!
