//! The measurement record and its left-biased merge.
//!
//! A `FileInformation` holds one optional value per metric (plus the file
//! name). Metric functions produce partial records with a single field set;
//! `concat` combines two records field-wise, preferring the left operand,
//! and `mconcat` folds a whole sequence of partials into one record,
//! starting from the all-empty record.

use vstd::prelude::*;

verus! {

/// Mathematical model of a record: each field either absent or present
/// with its value.
#[verifier::ext_equal]
pub ghost struct RecordView {
    pub file_name: Option<Seq<char>>,
    pub bytes: Option<nat>,
    pub lines: Option<nat>,
    pub words: Option<nat>,
}

impl RecordView {
    /// The all-empty record, the identity of `concat_spec`.
    pub open spec fn empty() -> RecordView {
        RecordView { file_name: None, bytes: None, lines: None, words: None }
    }
}

/// Field-wise combination of two records: each field takes the left
/// operand's value when present, otherwise the right operand's.
pub open spec fn concat_spec(a: RecordView, b: RecordView) -> RecordView {
    RecordView {
        file_name: if a.file_name is Some {
            a.file_name
        } else {
            b.file_name
        },
        bytes: if a.bytes is Some {
            a.bytes
        } else {
            b.bytes
        },
        lines: if a.lines is Some {
            a.lines
        } else {
            b.lines
        },
        words: if a.words is Some {
            a.words
        } else {
            b.words
        },
    }
}

/// Left fold of `concat_spec` over a sequence of records, starting from
/// the all-empty record.
pub open spec fn mconcat_spec(s: Seq<RecordView>) -> RecordView
    decreases s.len(),
{
    if s.len() == 0 {
        RecordView::empty()
    } else {
        concat_spec(mconcat_spec(s.drop_last()), s.last())
    }
}

/// The merge is associative.
pub proof fn lemma_concat_associative(a: RecordView, b: RecordView, c: RecordView)
    ensures
        concat_spec(concat_spec(a, b), c) == concat_spec(a, concat_spec(b, c)),
{
}

/// The all-empty record is a left and right identity of the merge.
pub proof fn lemma_concat_identity(r: RecordView)
    ensures
        concat_spec(RecordView::empty(), r) == r,
        concat_spec(r, RecordView::empty()) == r,
{
}

/// A partial or complete measurement of one file: the file's name and up
/// to three counts, each possibly absent.
pub struct FileInformation {
    pub file_name: Option<String>,
    pub bytes: Option<usize>,
    pub lines: Option<usize>,
    pub words: Option<usize>,
}

impl View for FileInformation {
    type V = RecordView;

    open spec fn view(&self) -> RecordView {
        RecordView {
            file_name: match self.file_name {
                Some(s) => Some(s@),
                None => None,
            },
            bytes: match self.bytes {
                Some(n) => Some(n as nat),
                None => None,
            },
            lines: match self.lines {
                Some(n) => Some(n as nat),
                None => None,
            },
            words: match self.words {
                Some(n) => Some(n as nat),
                None => None,
            },
        }
    }
}

impl Default for FileInformation {
    /// The record with every field absent.
    fn default() -> (r: Self)
        ensures
            r@ == RecordView::empty(),
    {
        FileInformation { file_name: None, bytes: None, lines: None, words: None }
    }
}

impl FileInformation {
    /// Left-biased merge: each field takes `self`'s value when present,
    /// otherwise `fi`'s.
    pub fn concat(self, fi: FileInformation) -> (r: Self)
        ensures
            r@ == concat_spec(self@, fi@),
    {
        FileInformation {
            file_name: if self.file_name.is_some() {
                self.file_name
            } else {
                fi.file_name
            },
            bytes: if self.bytes.is_some() {
                self.bytes
            } else {
                fi.bytes
            },
            lines: if self.lines.is_some() {
                self.lines
            } else {
                fi.lines
            },
            words: if self.words.is_some() {
                self.words
            } else {
                fi.words
            },
        }
    }
}

/// The models of a sequence of records, in order.
pub open spec fn views_of(s: Seq<FileInformation>) -> Seq<RecordView> {
    s.map_values(|fi: FileInformation| fi@)
}

/// Folds a whole list of records into one, left to right, starting from
/// the all-empty record.
pub fn mconcat(fis: Vec<FileInformation>) -> (r: FileInformation)
    ensures
        r@ == mconcat_spec(views_of(fis@)),
{
    let ghost orig: Seq<RecordView> = views_of(fis@);
    let mut rest = fis;
    let mut accumulated_file_information = FileInformation::default();
    let ghost mut done: int = 0;

    while rest.len() > 0
        invariant
            0 <= done <= orig.len(),
            views_of(rest@) =~= orig.skip(done),
            accumulated_file_information@ == mconcat_spec(orig.take(done)),
        decreases rest.len(),
    {
        let ghost pre = rest@;
        let x = rest.remove(0);
        proof {
            assert(views_of(pre).len() == pre.len());
            assert(done < orig.len());
            assert(x@ == views_of(pre)[0]);
            assert(views_of(rest@).len() == rest@.len());
            assert forall|i: int| 0 <= i < rest@.len() implies views_of(rest@)[i] == orig.skip(
                done + 1,
            )[i] by {
                assert(rest@[i] == pre[i + 1]);
                assert(views_of(pre)[i + 1] == pre[i + 1]@);
            }
            assert(views_of(rest@) =~= orig.skip(done + 1));
            let t = orig.take(done + 1);
            assert(t.drop_last() =~= orig.take(done));
            assert(t.last() == orig[done]);
            done = done + 1;
        }
        accumulated_file_information = accumulated_file_information.concat(x);
    }

    proof {
        assert(orig.take(done) =~= orig);
    }
    accumulated_file_information
}

} // verus!
