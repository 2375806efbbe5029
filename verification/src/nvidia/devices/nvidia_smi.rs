//! What the `nvidia-smi` tool prints, in its comma-separated form without header and units.

use crate::nvidia::devices::gpu_sensor_common::Reading;
use crate::text::{pieces, split_text, split_texts_were_joined, texts, trim, trimmed};
use vstd::prelude::*;

verus! {

/// The columns asked for when cards are listed.
pub const LIST_QUERY: &'static str = "--query-gpu=uuid,name";

/// The columns asked for when temperatures are read.
pub const TEMPERATURE_QUERY: &'static str = "--query-gpu=temperature.gpu,temperature.memory";

/// The form of the output.
pub const OUTPUT_FORMAT: &'static str = "--format=csv,noheader,nounits";

/// The names of the temperature columns.
pub const TEMPERATURE_LABELS: [&'static str; 2] = ["GPU Core", "GPU Memory"];

/// A card.
#[derive(Debug)]
pub struct SmiGpu {
    pub uuid: String,
    pub name: String,
}

/// The card that a line describes: its first two columns, unless there are fewer or the
/// first is empty.
pub open spec fn listed_gpu(line: Seq<char>) -> Option<(Seq<char>, Seq<char>)> {
    let cols = pieces(line, ',');
    if cols.len() < 2 || trim(cols[0]).len() == 0 {
        None
    } else {
        Some((trim(cols[0]), trim(cols[1])))
    }
}

/// The cards that the lines describe, in order.
pub open spec fn listed_gpus(lines: Seq<Seq<char>>) -> Seq<(Seq<char>, Seq<char>)>
    decreases lines.len(),
{
    if lines.len() == 0 {
        Seq::empty()
    } else {
        match listed_gpu(lines.last()) {
            Some(gpu) => listed_gpus(lines.drop_last()).push(gpu),
            None => listed_gpus(lines.drop_last()),
        }
    }
}

/// Cards as pairs of UUID and name.
pub open spec fn gpu_texts(gpus: Seq<SmiGpu>) -> Seq<(Seq<char>, Seq<char>)> {
    Seq::new(gpus.len(), |i: int| (gpus[i].uuid@, gpus[i].name@))
}

/// Reads a list of cards. The last line may or may not be ended, and a carriage return
/// before a line end belongs to the white space around its last column.
pub fn parse_gpu_list(stdout: &str) -> (r: Vec<SmiGpu>)
    ensures
        gpu_texts(r@) == listed_gpus(pieces(stdout@, '\n')),
{
    let lines: Vec<String> = split_text(stdout, '\n');
    let n: usize = lines.len();
    let mut out: Vec<SmiGpu> = Vec::new();
    let mut i: usize = 0;
    while i < n
        invariant
            i <= n,
            n == lines@.len(),
            texts(lines@) == pieces(stdout@, '\n'),
            gpu_texts(out@) =~= listed_gpus(texts(lines@).take(i as int)),
        decreases n - i,
    {
        let cols: Vec<String> = split_text(lines[i].as_str(), ',');
        proof {
            assert(texts(lines@).take(i + 1).drop_last() =~= texts(lines@).take(i as int));
            assert(texts(lines@).take(i + 1).last() == lines@[i as int]@);
            assert(texts(cols@).len() == cols@.len());
            assert(cols@.len() > 0 ==> texts(cols@)[0] == cols@[0]@);
            assert(cols@.len() > 1 ==> texts(cols@)[1] == cols@[1]@);
        }
        if cols.len() >= 2 {
            let uuid: String = trimmed(cols[0].as_str());
            let name: String = trimmed(cols[1].as_str());
            if uuid.as_str().unicode_len() > 0 {
                let ghost before = gpu_texts(out@);
                out.push(SmiGpu { uuid, name });
                proof {
                    assert(gpu_texts(out@) =~= before.push((uuid@, name@)));
                }
            }
        }
        i = i + 1;
    }
    proof {
        assert(texts(lines@).take(n as int) =~= texts(lines@));
    }
    out
}

/// Whether an output has a first line to read temperatures from, and that line.
pub open spec fn first_row(stdout: Seq<char>) -> Option<Seq<char>> {
    if stdout.len() == 0 {
        None
    } else {
        Some(pieces(stdout, '\n')[0])
    }
}

/// The trimmed columns of the first line of an output; `None` for an empty output.
pub fn temperature_columns(stdout: &str) -> (r: Option<Vec<String>>)
    ensures
        match (r, first_row(stdout@)) {
            (Some(cols), Some(line)) => texts(cols@) == pieces(line, ',').map_values(
                |c: Seq<char>| trim(c),
            ),
            (None, None) => true,
            _ => false,
        },
{
    if stdout.unicode_len() == 0 {
        return None;
    }
    let lines: Vec<String> = split_text(stdout, '\n');
    proof {
        assert(texts(lines@)[0] == lines@[0]@);
    }
    let cols: Vec<String> = split_text(lines[0].as_str(), ',');
    let n: usize = cols.len();
    let mut out: Vec<String> = Vec::new();
    let mut i: usize = 0;
    while i < n
        invariant
            i <= n,
            n == cols@.len(),
            out@.len() == i,
            forall|k: int| #![trigger out@[k]] 0 <= k < i ==> out@[k]@ == trim(cols@[k]@),
        decreases n - i,
    {
        out.push(trimmed(cols[i].as_str()));
        i = i + 1;
    }
    proof {
        let want = pieces(lines@[0]@, ',').map_values(|c: Seq<char>| trim(c));
        assert(texts(out@) =~= want) by {
            assert forall|k: int| 0 <= k < n implies texts(out@)[k] == #[trigger] want[k] by {
                assert(texts(cols@)[k] == cols@[k]@);
                assert(out@[k]@ == trim(cols@[k]@));
            }
        }
    }
    Some(out)
}

/// The readings of the columns that hold a number, each under its label; columns without a
/// label and labels without a column give none.
pub open spec fn labelled(labels: Seq<&'static str>, values: Seq<Option<i64>>) -> Seq<Reading>
    decreases labels.len(),
{
    if labels.len() == 0 {
        Seq::empty()
    } else {
        let rest = labelled(labels.drop_last(), values);
        let i = labels.len() - 1;
        if i < values.len() {
            match values[i] {
                Some(tenths) => rest.push(Reading { label: labels[i], tenths }),
                None => rest,
            }
        } else {
            rest
        }
    }
}

/// Puts the labels to the numbers read from the columns of one line, in tenths of a degree;
/// a column that holds no number is skipped.
pub fn parse_temperature_line(values: &[Option<i64>], labels: &[&'static str]) -> (r: Vec<Reading>)
    ensures
        r@ == labelled(labels@, values@),
        r@.len() <= labels@.len(),
{
    let n: usize = labels.len();
    let mut out: Vec<Reading> = Vec::new();
    let mut i: usize = 0;
    while i < n
        invariant
            i <= n,
            n == labels@.len(),
            out@ == labelled(labels@.take(i as int), values@),
            out@.len() <= i,
        decreases n - i,
    {
        proof {
            assert(labels@.take(i + 1).drop_last() =~= labels@.take(i as int));
        }
        if i < values.len() {
            if let Some(tenths) = values[i] {
                out.push(Reading { label: labels[i], tenths });
            }
        }
        i = i + 1;
    }
    proof {
        assert(labels@.take(n as int) =~= labels@);
    }
    out
}

/// No listed card lacks a UUID.
pub proof fn listed_gpus_have_uuids(lines: Seq<Seq<char>>, i: int)
    requires
        0 <= i < listed_gpus(lines).len(),
    ensures
        listed_gpus(lines)[i].0.len() > 0,
        listed_gpus(lines).len() <= lines.len(),
    decreases lines.len(),
{
    if lines.len() > 0 {
        let before = listed_gpus(lines.drop_last());
        if i < before.len() {
            listed_gpus_have_uuids(lines.drop_last(), i);
        } else if before.len() > 0 {
            listed_gpus_have_uuids(lines.drop_last(), before.len() - 1);
        }
    }
}

/// The cards of an output are those of its first line and then those of the rest.
pub proof fn lines_are_listed_in_order(
    line: &str,
    rest: &str,
    whole: &str,
    a: Vec<SmiGpu>,
    b: Vec<SmiGpu>,
    r: Vec<SmiGpu>,
)
    requires
        forall|i: int| 0 <= i < line@.len() ==> line@[i] != '\n',
        whole@ == line@.push('\n') + rest@,
        call_ensures(parse_gpu_list, (line,), a),
        call_ensures(parse_gpu_list, (rest,), b),
        call_ensures(parse_gpu_list, (whole,), r),
    ensures
        gpu_texts(r@) == gpu_texts(a@) + gpu_texts(b@),
{
    split_texts_were_joined(line@, rest@, '\n');
    lemma_listed(seq![line@], pieces(rest@, '\n'));
}

/// The cards of joined lines.
proof fn lemma_listed(a: Seq<Seq<char>>, b: Seq<Seq<char>>)
    ensures
        listed_gpus(a + b) == listed_gpus(a) + listed_gpus(b),
    decreases b.len(),
{
    if b.len() == 0 {
        assert(a + b =~= a);
    } else {
        lemma_listed(a, b.drop_last());
        assert((a + b).drop_last() =~= a + b.drop_last());
        assert((a + b).last() == b.last());
    }
}

/// A line of two columns lists one card: the first column is its UUID and the second its
/// name, both without the white space around them. Further columns do not matter. A line
/// whose first column is blank, or that has no second, lists none.
pub proof fn columns_are_uuid_and_name(
    line: &str,
    uuid: Seq<char>,
    name: Seq<char>,
    more: Seq<char>,
    r: Vec<SmiGpu>,
)
    requires
        forall|i: int| 0 <= i < line@.len() ==> line@[i] != '\n',
        forall|i: int| 0 <= i < uuid.len() ==> uuid[i] != ',',
        forall|i: int| 0 <= i < name.len() ==> name[i] != ',',
        call_ensures(parse_gpu_list, (line,), r),
    ensures
        line@ == uuid.push(',') + name || line@ == uuid.push(',') + (name.push(',') + more) ==> {
            &&& trim(uuid).len() > 0 ==> r@.len() == 1 && r@[0].uuid@ == trim(uuid) && r@[0].name@
                == trim(name)
            &&& trim(uuid).len() == 0 ==> r@.len() == 0
        },
        line@ == uuid ==> r@.len() == 0,
{
    split_texts_were_joined(line@, Seq::empty(), '\n');
    assert(pieces(line@, '\n') =~= seq![line@]);
    split_texts_were_joined(uuid, name, ',');
    split_texts_were_joined(uuid, name.push(',') + more, ',');
    split_texts_were_joined(name, more, ',');
    let one = seq![line@];
    assert(one.drop_last() =~= Seq::empty());
    assert(listed_gpus(one.drop_last()) =~= Seq::empty());
    let all = listed_gpus(one);
    assert(gpu_texts(r@) == all);
    assert(gpu_texts(r@).len() == r@.len());
    if r@.len() > 0 {
        assert(gpu_texts(r@)[0] == (r@[0].uuid@, r@[0].name@));
    }
}

/// Only the first line of an output is read for temperatures. Its columns come in order,
/// without the white space around them.
pub proof fn columns_come_in_order(
    stdout: &str,
    r: Option<Vec<String>>,
    first: Seq<char>,
    more: Seq<char>,
    below: Seq<char>,
)
    requires
        call_ensures(temperature_columns, (stdout,), r),
        forall|i: int| 0 <= i < first.len() ==> first[i] != '\n' && first[i] != ',',
        forall|i: int| 0 <= i < more.len() ==> more[i] != '\n' && more[i] != ',',
    ensures
        r is None <==> stdout@.len() == 0,
        stdout@ == first.push(',') + more ==> r->Some_0@.len() == 2 && r->Some_0@[0]@ == trim(first)
            && r->Some_0@[1]@ == trim(more),
        stdout@ == (first.push(',') + more).push('\n') + below ==> r->Some_0@.len() == 2
            && r->Some_0@[0]@ == trim(first) && r->Some_0@[1]@ == trim(more),
        stdout@.len() > 0 && stdout@ == first ==> r->Some_0@.len() == 1 && r->Some_0@[0]@ == trim(
            first,
        ),
{
    let line = first.push(',') + more;
    assert forall|i: int| 0 <= i < line.len() implies line[i] != '\n' by {
        if i > first.len() {
            assert(line[i] == more[i - first.len() - 1]);
        }
    }
    split_texts_were_joined(line, below, '\n');
    split_texts_were_joined(first, below, '\n');
    split_texts_were_joined(first, more, ',');
    split_texts_were_joined(more, below, ',');
    if let Some(cols) = r {
        let got = texts(cols@);
        assert(got.len() == cols@.len());
        assert(cols@.len() > 0 ==> got[0] == cols@[0]@);
        assert(cols@.len() > 1 ==> got[1] == cols@[1]@);
        if stdout@ == line || stdout@ == line.push('\n') + below {
            assert(first_row(stdout@) == Some(line));
            assert(pieces(line, ',') =~= seq![first, more]);
        }
        if stdout@ == first {
            assert(first_row(stdout@) == Some(first));
        }
    }
}

/// Each number is read under the label of its own column, and whatever is read stands in
/// a column with a label.
pub proof fn numbers_keep_their_labels(
    values: &[Option<i64>],
    labels: &[&'static str],
    r: Vec<Reading>,
    i: int,
)
    requires
        call_ensures(parse_temperature_line, (values, labels), r),
    ensures
        0 <= i < labels@.len() && i < values@.len() && values@[i] is Some ==> exists|k: int|
            0 <= k < r@.len() && (#[trigger] r@[k]).label == labels@[i] && r@[k].tenths
                == values@[i]->Some_0,
        0 <= i < r@.len() ==> exists|k: int|
            0 <= k < labels@.len() && k < values@.len() && (#[trigger] labels@[k]) == r@[i].label
                && values@[k] == Some(r@[i].tenths),
        r@.len() <= labels@.len() && r@.len() <= values@.len(),
{
    let all = labelled(labels@, values@);
    lemma_label_count(labels@, values@);
    if 0 <= i < labels@.len() && i < values@.len() && values@[i] is Some {
        let k = lemma_label_read(labels@, values@, i);
        assert(r@[k] == all[k]);
    }
    if 0 <= i < r@.len() {
        assert(all[i] == r@[i]);
        let k = lemma_read_labelled(labels@, values@, i);
        assert(labels@[k] == r@[i].label);
    }
}

/// There are no more readings than labels and columns.
proof fn lemma_label_count(labels: Seq<&'static str>, values: Seq<Option<i64>>)
    ensures
        labelled(labels, values).len() <= labels.len(),
        labelled(labels, values).len() <= values.len(),
    decreases labels.len(),
{
    if labels.len() > 0 {
        lemma_label_count(labels.drop_last(), values);
    }
}

/// The place of the reading of column `i`.
proof fn lemma_label_read(labels: Seq<&'static str>, values: Seq<Option<i64>>, i: int) -> (k: int)
    requires
        0 <= i < labels.len(),
        i < values.len(),
        values[i] is Some,
    ensures
        0 <= k < labelled(labels, values).len(),
        labelled(labels, values)[k].label == labels[i],
        labelled(labels, values)[k].tenths == values[i]->Some_0,
    decreases labels.len(),
{
    let before = labelled(labels.drop_last(), values);
    if i < labels.len() - 1 {
        let k = lemma_label_read(labels.drop_last(), values, i);
        assert(labelled(labels, values)[k] == before[k]);
        k
    } else {
        before.len() as int
    }
}

/// The column of reading `k`.
proof fn lemma_read_labelled(labels: Seq<&'static str>, values: Seq<Option<i64>>, k: int) -> (i:
    int)
    requires
        0 <= k < labelled(labels, values).len(),
    ensures
        0 <= i < labels.len(),
        i < values.len(),
        labelled(labels, values)[k].label == labels[i],
        values[i] == Some(labelled(labels, values)[k].tenths),
    decreases labels.len(),
{
    let before = labelled(labels.drop_last(), values);
    if k < before.len() {
        assert(labelled(labels, values)[k] == before[k]);
        lemma_read_labelled(labels.drop_last(), values, k)
    } else {
        labels.len() - 1
    }
}

} // verus!
