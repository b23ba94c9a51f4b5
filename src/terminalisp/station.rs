//! The nested, parenthesised text in which the station reports its state.
use vstd::prelude::*;

verus! {

/// `n` units of indentation.
pub open spec fn indent_text(n: nat) -> Seq<char>
    decreases n,
{
    if n == 0 {
        Seq::empty()
    } else {
        indent_text((n - 1) as nat) + "    "@
    }
}

/// `s` between double quotes.
pub open spec fn quoted(s: Seq<char>) -> Seq<char> {
    "\""@ + s + "\""@
}

/// The decimal digit `d`.
pub open spec fn digit_text(d: nat) -> Seq<char> {
    if d == 0 {
        "0"@
    } else if d == 1 {
        "1"@
    } else if d == 2 {
        "2"@
    } else if d == 3 {
        "3"@
    } else if d == 4 {
        "4"@
    } else if d == 5 {
        "5"@
    } else if d == 6 {
        "6"@
    } else if d == 7 {
        "7"@
    } else if d == 8 {
        "8"@
    } else {
        "9"@
    }
}

/// `n` written in decimal, without leading zeros.
pub open spec fn decimal_text(n: nat) -> Seq<char>
    decreases n,
{
    if n < 10 {
        digit_text(n)
    } else {
        decimal_text(n / 10) + digit_text(n % 10)
    }
}

/// The texts of a sequence of strings.
pub open spec fn texts(v: Seq<String>) -> Seq<Seq<char>> {
    v.map_values(|s: String| s@)
}

/// One `key value` field of a status block.
pub open spec fn field_text(
    key: Seq<char>,
    value: Seq<char>,
    show_inner: bool,
    indent: nat,
) -> Seq<char> {
    if show_inner {
        indent_text(indent + 1) + key + " "@ + value + "\n"@
    } else {
        " "@ + key + " "@ + value
    }
}

/// The first `n` fields of a status block.
pub open spec fn fields_text(
    keys: Seq<Seq<char>>,
    values: Seq<Seq<char>>,
    show_inner: bool,
    indent: nat,
    n: int,
) -> Seq<char>
    decreases n,
{
    if n <= 0 {
        Seq::empty()
    } else {
        fields_text(keys, values, show_inner, indent, n - 1) + field_text(
            keys[n - 1],
            values[n - 1],
            show_inner,
            indent,
        )
    }
}

/// The first `n` texts of `parts`, one after the other.
pub open spec fn concat_text(parts: Seq<Seq<char>>, n: int) -> Seq<char>
    decreases n,
{
    if n <= 0 {
        Seq::empty()
    } else {
        concat_text(parts, n - 1) + parts[n - 1]
    }
}

/// A status block: `(header`, the fields if `show_fields`, the inner blocks
/// under `inner_key` if `show_inner`, then `)`. With `show_inner` each part
/// stands on a line of its own, indented by nesting depth; without it the
/// block is one line. Keys and values are paired up to the shorter list.
pub open spec fn status_text(
    header: Seq<char>,
    show_fields: bool,
    keys: Seq<Seq<char>>,
    values: Seq<Seq<char>>,
    show_inner: bool,
    inner_key: Seq<char>,
    inner_values: Seq<Seq<char>>,
    indent: nat,
) -> Seq<char> {
    let n = if keys.len() <= values.len() {
        keys.len()
    } else {
        values.len()
    };
    let head = indent_text(indent) + "("@ + header + if show_inner {
        "\n"@
    } else {
        Seq::empty()
    };
    let fields = if show_fields {
        fields_text(keys, values, show_inner, indent, n as int)
    } else {
        Seq::empty()
    };
    let inner = if show_inner {
        indent_text(indent + 1) + inner_key + " (\n"@ + concat_text(
            inner_values,
            inner_values.len() as int,
        ) + indent_text((indent + 1) as nat) + ")\n"@
    } else {
        Seq::empty()
    };
    let tail = if show_inner {
        indent_text(indent) + ")\n"@
    } else {
        ")\n"@
    };
    head + fields + inner + tail
}

fn digit(d: u16) -> (r: &'static str)
    requires
        d < 10,
    ensures
        r@ == digit_text(d as nat),
{
    if d == 0 {
        "0"
    } else if d == 1 {
        "1"
    } else if d == 2 {
        "2"
    } else if d == 3 {
        "3"
    } else if d == 4 {
        "4"
    } else if d == 5 {
        "5"
    } else if d == 6 {
        "6"
    } else if d == 7 {
        "7"
    } else if d == 8 {
        "8"
    } else {
        "9"
    }
}

/// `n` written in decimal.
pub fn decimal(n: u16) -> (r: String)
    ensures
        r@ == decimal_text(n as nat),
    decreases n,
{
    if n < 10 {
        String::from_str(digit(n))
    } else {
        let mut r = decimal(n / 10);
        r.append(digit(n % 10));
        r
    }
}

/// `s` between double quotes.
pub fn quote(s: &str) -> (r: String)
    ensures
        r@ == quoted(s@),
{
    let mut r = String::from_str("\"");
    r.append(s);
    r.append("\"");
    r
}

fn push_indent(result: &mut String, n: u16)
    ensures
        final(result)@ == old(result)@ + indent_text(n as nat),
{
    let mut i: u16 = 0;
    while i < n
        invariant
            0 <= i <= n,
            result@ == old(result)@ + indent_text(i as nat),
        decreases n - i,
    {
        result.append("    ");
        i = i + 1;
        assert(result@ =~= old(result)@ + indent_text(i as nat));
    }
}

/// Renders a status block; see `status_text`.
pub fn status(
    header: String,
    show_fields: bool,
    keys: Vec<String>,
    values: Vec<String>,
    show_inner: bool,
    inner_key: String,
    inner_values: Vec<String>,
    indent: u8,
) -> (r: String)
    ensures
        r@ == status_text(
            header@,
            show_fields,
            texts(keys@),
            texts(values@),
            show_inner,
            inner_key@,
            texts(inner_values@),
            indent as nat,
        ),
{
    let ghost ks = texts(keys@);
    let ghost vs = texts(values@);
    let ghost ivs = texts(inner_values@);
    let n: usize = if keys.len() <= values.len() {
        keys.len()
    } else {
        values.len()
    };
    let inner_indent: u16 = indent as u16 + 1;

    let mut result = String::new();
    push_indent(&mut result, indent as u16);
    result.append("(");
    result.append(header.as_str());
    if show_inner {
        result.append("\n");
    }
    let ghost head = result@;

    if show_fields {
        let mut i: usize = 0;
        while i < n
            invariant
                0 <= i <= n,
                n <= keys.len(),
                n <= values.len(),
                ks == texts(keys@),
                vs == texts(values@),
                inner_indent == indent + 1,
                result@ == head + fields_text(ks, vs, show_inner, indent as nat, i as int),
            decreases n - i,
        {
            let ghost before = result@;
            if show_inner {
                push_indent(&mut result, inner_indent);
            } else {
                result.append(" ");
            }
            result.append(keys[i].as_str());
            result.append(" ");
            result.append(values[i].as_str());
            if show_inner {
                result.append("\n");
            }
            assert(result@ =~= before + field_text(
                ks[i as int],
                vs[i as int],
                show_inner,
                indent as nat,
            ));
            i = i + 1;
        }
    }
    let ghost with_fields = result@;

    if show_inner {
        push_indent(&mut result, inner_indent);
        result.append(inner_key.as_str());
        result.append(" (\n");
        let ghost opened = result@;
        let mut j: usize = 0;
        while j < inner_values.len()
            invariant
                0 <= j <= inner_values.len(),
                ivs == texts(inner_values@),
                result@ == opened + concat_text(ivs, j as int),
            decreases inner_values.len() - j,
        {
            result.append(inner_values[j].as_str());
            assert(result@ =~= opened + concat_text(ivs, j + 1));
            j = j + 1;
        }
        push_indent(&mut result, inner_indent);
        result.append(")\n");
    }
    let ghost with_inner = result@;

    if show_inner {
        push_indent(&mut result, indent as u16);
    }
    result.append(")\n");
    proof {
        let fields = if show_fields {
            fields_text(ks, vs, show_inner, indent as nat, n as int)
        } else {
            Seq::empty()
        };
        assert(with_fields =~= head + fields);
        let inner = if show_inner {
            indent_text((indent + 1) as nat) + inner_key@ + " (\n"@
                + concat_text(ivs, ivs.len() as int) + indent_text((indent + 1) as nat) + ")\n"@
        } else {
            Seq::empty()
        };
        assert(with_inner =~= head + fields + inner);
    }
    assert(result@ =~= status_text(
        header@,
        show_fields,
        ks,
        vs,
        show_inner,
        inner_key@,
        ivs,
        indent as nat,
    ));
    result
}

} // verus!
