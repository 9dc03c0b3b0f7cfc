//! The text that the `play`, `ping` and `help` commands answer with.
use vstd::prelude::*;
use vstd::string::StringExecFns;
use crate::reply::decimal;

verus! {

/// What `str`'s `Debug` writes for a text: the text in double quotes, with
/// its special characters escaped.
pub uninterp spec fn debug_quoted(s: Seq<char>) -> Seq<char>;

/// Relies on `str`'s `Debug` formatting, whose output depends on the
/// characters alone.
#[verifier::external_body]
fn quoted(s: &str) -> (r: String)
    ensures
        r@ == debug_quoted(s@),
{
    format!("{:?}", s)
}

/// Relies on `u128`'s `Display`: the decimal writing of the number.
#[verifier::external_body]
fn decimal_string(n: u128) -> (r: String)
    ensures
        r@ == decimal(n as nat),
{
    n.to_string()
}

/// The answer to `play` with a query, given the query already quoted.
pub fn play_searching_text(quoted_query: &str) -> (r: String)
    ensures
        r@ == "Searching for songs matching: `"@ + quoted_query@ + "`\n-# Not actually searching rn"@,
{
    let mut s = String::from_str("Searching for songs matching: `");
    s.append(quoted_query);
    s.append("`\n-# Not actually searching rn");
    s
}

/// The answer to `play`: a search notice for a query, else a resume notice.
pub fn play_reply(query: Option<&str>) -> (r: String)
    ensures
        match query {
            Some(q) => r@ == "Searching for songs matching: `"@ + debug_quoted(q@) + "`\n-# Not actually searching rn"@,
            None => r@ == "No query provided, unpausing.."@,
        },
{
    match query {
        Some(q) => {
            let qq = quoted(q);
            play_searching_text(qq.as_str())
        },
        None => String::from_str("No query provided, unpausing.."),
    }
}

/// The latency line of `ping`'s answer.
pub fn ping_text(latency_ms: u128) -> (r: String)
    ensures
        r@ == "latency: `"@ + decimal(latency_ms as nat) + "` ms"@,
{
    let mut s = String::from_str("latency: `");
    let d = decimal_string(latency_ms);
    s.append(d.as_str());
    s.append("` ms");
    s
}

/// The text under a single command's help title: its description quoted as
/// a block, or a placeholder.
pub fn help_description(description: Option<&str>) -> (r: String)
    ensures
        description matches Some(d) ==> r@ == ">>> "@ + d@,
        description is None ==> r@ == ">>> "@ + "No description"@,
{
    let mut s = String::from_str(">>> ");
    match description {
        Some(d) => {
            s.append(d);
            s
        },
        None => {
            s.append("No description");
            s
        },
    }
}

/// A help title: an icon, a space, then the subject.
pub fn help_title(icon: &str, subject: &str) -> (r: String)
    ensures
        r@ == icon@ + " "@ + subject@,
{
    let mut s = String::from_str(icon);
    s.append(" ");
    s.append(subject);
    s
}

/// A registered command as the help overview lists it.
pub struct CommandInfo {
    pub name: String,
    pub category: Option<String>,
}

/// One field of the help overview: a category and its listing.
pub struct HelpField {
    pub name: String,
    pub value: String,
    pub inline: bool,
}

/// The category a command is listed under.
pub open spec fn category_label(c: CommandInfo) -> Seq<char> {
    match c.category {
        Some(s) => s@,
        None => "Uncategorized"@,
    }
}

/// The categories of `cmds`, each once, in order of first appearance.
pub open spec fn categories(cmds: Seq<CommandInfo>) -> Seq<Seq<char>>
    decreases cmds.len(),
{
    if cmds.len() == 0 {
        Seq::empty()
    } else {
        let prev = categories(cmds.drop_last());
        let c = category_label(cmds.last());
        if prev.contains(c) {
            prev
        } else {
            prev.push(c)
        }
    }
}

/// The names of the commands of `cmds` under category `cat`, in order, each
/// followed by a line break.
pub open spec fn listing(cmds: Seq<CommandInfo>, cat: Seq<char>) -> Seq<char>
    decreases cmds.len(),
{
    if cmds.len() == 0 {
        Seq::empty()
    } else {
        listing(cmds.drop_last(), cat) + if category_label(cmds.last()) == cat {
            cmds.last().name@ + "\n"@
        } else {
            Seq::empty()
        }
    }
}

/// A category that no command of `cmds` is under lists nothing.
proof fn lemma_listing_absent(cmds: Seq<CommandInfo>, cat: Seq<char>)
    requires
        !categories(cmds).contains(cat),
    ensures
        listing(cmds, cat) == Seq::<char>::empty(),
    decreases cmds.len(),
{
    if cmds.len() > 0 {
        let prev = categories(cmds.drop_last());
        if prev.contains(cat) {
            let m = choose|m: int| 0 <= m < prev.len() && prev[m] == cat;
            if !prev.contains(category_label(cmds.last())) {
                assert(categories(cmds)[m] == cat);
            }
        }
        if category_label(cmds.last()) == cat {
            if !prev.contains(cat) {
                assert(categories(cmds)[prev.len() as int] == cat);
            }
        }
        lemma_listing_absent(cmds.drop_last(), cat);
    }
}

/// The category that `c` is listed under.
fn category_name(c: &CommandInfo) -> (r: String)
    ensures
        r@ == category_label(*c),
{
    match &c.category {
        Some(s) => s.clone(),
        None => String::from_str("Uncategorized"),
    }
}

/// The help overview: one inline field per category, in order of first
/// appearance, holding the names of its commands in a code block.
pub fn help_fields(cmds: &Vec<CommandInfo>) -> (r: Vec<HelpField>)
    ensures
        r.len() == categories(cmds@).len(),
        forall|k: int|
            0 <= k < r.len() ==> {
                &&& (#[trigger] r[k]).name@ == categories(cmds@)[k]
                &&& r[k].value@ == "```\n"@ + listing(cmds@, categories(cmds@)[k]) + "```"@
                &&& r[k].inline
            },
{
    let mut names: Vec<String> = Vec::new();
    let mut bodies: Vec<String> = Vec::new();
    let mut i: usize = 0;
    while i < cmds.len()
        invariant
            i <= cmds.len(),
            names.len() == bodies.len(),
            names.len() == categories(cmds@.take(i as int)).len(),
            forall|k: int| 0 <= k < names.len() ==> (#[trigger] names[k])@ == categories(cmds@.take(i as int))[k],
            forall|k: int|
                0 <= k < names.len() ==> (#[trigger] bodies[k])@ == "```\n"@ + listing(cmds@.take(i as int), names[k]@),
            forall|a: int, b: int| 0 <= a < b < names.len() ==> names[a]@ != names[b]@,
        decreases cmds.len() - i,
    {
        let ghost before = cmds@.take(i as int);
        let ghost after = cmds@.take(i + 1);
        assert(after.drop_last() == before);
        assert(after.last() == cmds@[i as int]);
        let label = category_name(&cmds[i]);
        let mut j: usize = 0;
        while j < names.len()
            invariant
                j <= names.len(),
                forall|m: int| 0 <= m < j ==> (#[trigger] names[m])@ != label@,
            ensures
                j <= names.len(),
                forall|m: int| 0 <= m < j ==> (#[trigger] names[m])@ != label@,
                j < names.len() ==> names[j as int]@ == label@,
            decreases names.len() - j,
        {
            if names[j] == label {
                break;
            }
            j = j + 1;
        }
        let ghost old_names = names@;
        let ghost old_bodies = bodies@;
        if j < names.len() {
            assert(categories(before)[j as int] == label@);
            let mut nb = bodies[j].clone();
            nb.append(cmds[i].name.as_str());
            nb.append("\n");
            bodies.set(j, nb);
            assert forall|k: int| 0 <= k < names.len() implies (#[trigger] bodies[k])@ == "```\n"@ + listing(after, names[k]@) by {
                if k != j {
                    assert(old_names[k]@ != label@);
                    assert(listing(after, names[k]@) =~= listing(before, names[k]@));
                } else {
                    assert(listing(after, label@) =~= listing(before, label@) + (cmds@[i as int].name@ + "\n"@));
                    assert(bodies[k]@ =~= "```\n"@ + listing(after, names[k]@));
                }
            }
        } else {
            assert(!categories(before).contains(label@)) by {
                if categories(before).contains(label@) {
                    let m = choose|m: int| 0 <= m < categories(before).len() && categories(before)[m] == label@;
                    assert(names[m]@ == label@);
                }
            }
            proof {
                lemma_listing_absent(before, label@);
            }
            let mut nb = String::from_str("```\n");
            nb.append(cmds[i].name.as_str());
            nb.append("\n");
            let label_copy = label.clone();
            names.push(label_copy);
            bodies.push(nb);
            assert forall|k: int| 0 <= k < names.len() implies (#[trigger] bodies[k])@ == "```\n"@ + listing(after, names[k]@) by {
                if k < old_names.len() {
                    assert(old_names[k]@ != label@);
                    assert(listing(after, names[k]@) =~= listing(before, names[k]@));
                } else {
                    assert(listing(after, label@) =~= listing(before, label@) + (cmds@[i as int].name@ + "\n"@));
                    assert(bodies[k]@ =~= "```\n"@ + listing(after, names[k]@));
                }
            }
        }
        i = i + 1;
    }
    assert(cmds@.take(cmds.len() as int) == cmds@);
    let mut fields: Vec<HelpField> = Vec::new();
    let mut k: usize = 0;
    while k < names.len()
        invariant
            k <= names.len(),
            names.len() == bodies.len(),
            names.len() == categories(cmds@).len(),
            fields.len() == k,
            forall|m: int| 0 <= m < names.len() ==> (#[trigger] names[m])@ == categories(cmds@)[m],
            forall|m: int| 0 <= m < names.len() ==> (#[trigger] bodies[m])@ == "```\n"@ + listing(cmds@, names[m]@),
            forall|m: int|
                0 <= m < k ==> {
                    &&& (#[trigger] fields[m]).name@ == categories(cmds@)[m]
                    &&& fields[m].value@ == "```\n"@ + listing(cmds@, categories(cmds@)[m]) + "```"@
                    &&& fields[m].inline
                },
        decreases names.len() - k,
    {
        let mut value = bodies[k].clone();
        value.append("```");
        fields.push(HelpField { name: names[k].clone(), value, inline: true });
        k = k + 1;
    }
    fields
}

} // verus!
