use crate::models::NumpyDataset;
use vstd::prelude::*;

verus! {

/// One OHLCV bar. The prices and the volume are 32-bit floats, held here as
/// their IEEE-754 bit patterns (`f32::to_bits`), which is all the columnar
/// encoding reads of them.
#[derive(Debug, Clone, Copy, PartialEq, Eq, Structural)]
pub struct OhlcvRow {
    pub epoch: i64,
    pub open: u32,
    pub high: u32,
    pub low: u32,
    pub close: u32,
    pub volume: u32,
}

/// Little-endian bytes of a 64-bit word.
pub open spec fn le_bytes_u64(x: u64) -> Seq<u8> {
    seq![
        x as u8,
        (x >> 8u64) as u8,
        (x >> 16u64) as u8,
        (x >> 24u64) as u8,
        (x >> 32u64) as u8,
        (x >> 40u64) as u8,
        (x >> 48u64) as u8,
        (x >> 56u64) as u8,
    ]
}

/// Little-endian bytes of a 32-bit word.
pub open spec fn le_bytes_u32(x: u32) -> Seq<u8> {
    seq![x as u8, (x >> 8u32) as u8, (x >> 16u32) as u8, (x >> 24u32) as u8]
}

/// Number of columns of an OHLCV dataset.
pub const OHLCV_COLUMNS: usize = 6;

/// The bytes of column `k` of one row: the epoch as an 8-byte integer, then
/// open, high, low, close and volume as 4-byte floats, all little-endian.
pub open spec fn field_bytes(row: OhlcvRow, k: int) -> Seq<u8> {
    if k == 0 {
        le_bytes_u64(row.epoch as u64)
    } else if k == 1 {
        le_bytes_u32(row.open)
    } else if k == 2 {
        le_bytes_u32(row.high)
    } else if k == 3 {
        le_bytes_u32(row.low)
    } else if k == 4 {
        le_bytes_u32(row.close)
    } else {
        le_bytes_u32(row.volume)
    }
}

/// Column `k` of `rows`: the field's bytes of each row, in row order.
pub open spec fn column(rows: Seq<OhlcvRow>, k: int) -> Seq<u8>
    decreases rows.len(),
{
    if rows.len() == 0 {
        seq![]
    } else {
        column(rows.drop_last(), k) + field_bytes(rows.last(), k)
    }
}

fn push_le_u64(out: &mut Vec<u8>, x: u64)
    ensures
        final(out)@ == old(out)@ + le_bytes_u64(x),
{
    out.push(x as u8);
    out.push((x >> 8u64) as u8);
    out.push((x >> 16u64) as u8);
    out.push((x >> 24u64) as u8);
    out.push((x >> 32u64) as u8);
    out.push((x >> 40u64) as u8);
    out.push((x >> 48u64) as u8);
    out.push((x >> 56u64) as u8);
    assert(final(out)@ =~= old(out)@ + le_bytes_u64(x));
}

fn push_le_u32(out: &mut Vec<u8>, x: u32)
    ensures
        final(out)@ == old(out)@ + le_bytes_u32(x),
{
    out.push(x as u8);
    out.push((x >> 8u32) as u8);
    out.push((x >> 16u32) as u8);
    out.push((x >> 24u32) as u8);
    assert(final(out)@ =~= old(out)@ + le_bytes_u32(x));
}

/// Encodes column `k` of `data`.
fn column_bytes(data: &[OhlcvRow], k: usize) -> (r: Vec<u8>)
    requires
        k < OHLCV_COLUMNS,
    ensures
        r@ == column(data@, k as int),
{
    let mut out: Vec<u8> = Vec::new();
    let mut i: usize = 0;
    while i < data.len()
        invariant
            i <= data@.len(),
            out@ == column(data@.subrange(0, i as int), k as int),
        decreases data@.len() - i,
    {
        let row = data[i];
        if k == 0 {
            push_le_u64(&mut out, row.epoch as u64);
        } else if k == 1 {
            push_le_u32(&mut out, row.open);
        } else if k == 2 {
            push_le_u32(&mut out, row.high);
        } else if k == 3 {
            push_le_u32(&mut out, row.low);
        } else if k == 4 {
            push_le_u32(&mut out, row.close);
        } else {
            push_le_u32(&mut out, row.volume);
        }
        proof {
            assert(data@.subrange(0, i + 1).drop_last() =~= data@.subrange(0, i as int));
        }
        i = i + 1;
    }
    proof {
        assert(data@.subrange(0, i as int) =~= data@);
    }
    out
}

/// The six byte columns of `data`: epoch, open, high, low, close, volume.
pub fn ohlcv_to_bytes(data: &[OhlcvRow]) -> (r: Vec<Vec<u8>>)
    ensures
        r@.len() == OHLCV_COLUMNS,
        forall|k: int| 0 <= k < OHLCV_COLUMNS ==> (#[trigger] r@[k])@ == column(data@, k),
{
    let mut result: Vec<Vec<u8>> = Vec::new();
    let mut k: usize = 0;
    while k < OHLCV_COLUMNS
        invariant
            k <= OHLCV_COLUMNS,
            result@.len() == k,
            forall|j: int| 0 <= j < k ==> (#[trigger] result@[j])@ == column(data@, j),
        decreases OHLCV_COLUMNS - k,
    {
        let col = column_bytes(data, k);
        result.push(col);
        k = k + 1;
    }
    result
}

/// Names of the columns of an OHLCV dataset.
pub open spec fn ohlcv_column_names() -> Seq<Seq<char>> {
    seq!["Epoch"@, "Open"@, "High"@, "Low"@, "Close"@, "Volume"@]
}

/// Element types of the columns of an OHLCV dataset.
pub open spec fn ohlcv_column_types() -> Seq<Seq<char>> {
    seq!["i8"@, "f4"@, "f4"@, "f4"@, "f4"@, "f4"@]
}

fn strings(parts: &[&str]) -> (r: Vec<String>)
    ensures
        r@.len() == parts@.len(),
        forall|i: int| 0 <= i < parts@.len() ==> (#[trigger] r@[i])@ == parts@[i]@,
{
    let mut out: Vec<String> = Vec::new();
    let mut i: usize = 0;
    while i < parts.len()
        invariant
            i <= parts@.len(),
            out@.len() == i,
            forall|j: int| 0 <= j < i ==> (#[trigger] out@[j])@ == parts@[j]@,
        decreases parts@.len() - i,
    {
        out.push(String::from_str(parts[i]));
        i = i + 1;
    }
    out
}

/// The columnar dataset of `data`, ready to be written to a bucket.
pub fn create_numpy_dataset_from_ohlcv(data: &[OhlcvRow]) -> (r: NumpyDataset)
    ensures
        r.column_names@.map_values(|s: String| s@) == ohlcv_column_names(),
        r.column_types@.map_values(|s: String| s@) == ohlcv_column_types(),
        r.column_data@.len() == OHLCV_COLUMNS,
        forall|k: int| 0 <= k < OHLCV_COLUMNS ==> (#[trigger] r.column_data@[k])@ == column(data@, k),
        r.length == data@.len() as i32,
{
    let names = strings(&["Epoch", "Open", "High", "Low", "Close", "Volume"]);
    let types = strings(&["i8", "f4", "f4", "f4", "f4", "f4"]);
    proof {
        assert(names@.map_values(|s: String| s@) =~= ohlcv_column_names());
        assert(types@.map_values(|s: String| s@) =~= ohlcv_column_types());
    }
    NumpyDataset {
        column_types: types,
        column_names: names,
        column_data: ohlcv_to_bytes(data),
        length: data.len() as i32,
    }
}

} // verus!
