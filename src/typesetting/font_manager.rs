use vstd::prelude::*;
use std::sync::Arc;
use crate::langgraph::table::{assoc, find_key};

verus! {

/// Why a font face could not be parsed.
#[verifier::external_type_specification]
#[verifier::external_body]
pub struct ExFaceParsingError(ttf_parser::FaceParsingError);

/// Vertical metrics of a font face, in font units.
#[derive(Clone, Copy, Debug, PartialEq, Eq, Structural)]
pub struct FontMetrics {
    pub units_per_em: u16,
    pub ascent: i16,
    pub descent: i16,
    pub line_gap: i16,
}

/// A loaded font: its file contents, shared, and its metrics.
#[derive(Debug)]
pub struct FontData {
    bytes: Arc<Vec<u8>>,
    metrics: FontMetrics,
}

impl Clone for FontData {
    fn clone(&self) -> (r: Self)
        ensures
            r.bytes_view() == self.bytes_view(),
            r.metrics_view() == self.metrics_view(),
    {
        FontData { bytes: Arc::clone(&self.bytes), metrics: self.metrics }
    }
}

#[derive(Debug)]
pub enum FontError {
    /// The font file could not be read.
    Io(String),
    /// The file is not a font face that can be parsed.
    Parse(ttf_parser::FaceParsingError),
}

/// Metrics (units per em, ascender, descender, line gap) of face 0 of a font
/// file, or none when the file does not parse as a font.
pub uninterp spec fn face_metrics(bytes: Seq<u8>) -> Option<(u16, i16, i16, i16)>;

/// Relies on `ttf_parser::Face::parse` with face index 0, and on the face's
/// `units_per_em`, `ascender`, `descender` and `line_gap`, which read the
/// parsed tables. Parsing refuses a `head` table whose units per em lie
/// outside 16..=16384.
#[verifier::external_body]
fn parse_metrics(bytes: &[u8]) -> (r: Result<FontMetrics, ttf_parser::FaceParsingError>)
    ensures
        match r {
            Ok(m) => face_metrics(bytes@) == Some((m.units_per_em, m.ascent, m.descent, m.line_gap))
                && 16 <= m.units_per_em <= 16384,
            Err(_) => face_metrics(bytes@) is None,
        },
{
    let face = ttf_parser::Face::parse(bytes, 0)?;
    Ok(FontMetrics {
        units_per_em: face.units_per_em(),
        ascent: face.ascender(),
        descent: face.descender(),
        line_gap: face.line_gap(),
    })
}

impl FontData {
    /// The file contents.
    pub closed spec fn bytes_view(&self) -> Seq<u8> {
        self.bytes@
    }

    pub closed spec fn metrics_view(&self) -> FontMetrics {
        self.metrics
    }

    pub fn bytes(&self) -> (r: &[u8])
        ensures
            r@ == self.bytes_view(),
    {
        self.bytes.as_slice()
    }

    /// A shared handle on the file contents.
    pub fn bytes_handle(&self) -> (r: Arc<Vec<u8>>)
        ensures
            r@ == self.bytes_view(),
    {
        Arc::clone(&self.bytes)
    }

    pub fn metrics(&self) -> (r: &FontMetrics)
        ensures
            *r == self.metrics_view(),
    {
        &self.metrics
    }
}

/// Loaded fonts, by path. A path is loaded once.
pub struct FontManager {
    cache: Vec<(String, FontData)>,
}

impl FontManager {
    /// Loaded fonts in the order they were loaded.
    pub closed spec fn entries(&self) -> Seq<(String, FontData)> {
        self.cache@
    }

    pub fn new() -> (r: Self)
        ensures
            r.entries().len() == 0,
    {
        FontManager { cache: Vec::new() }
    }

    /// The font loaded from `path`, if any.
    pub fn cached(&self, path: &str) -> (r: Option<&FontData>)
        ensures
            match assoc(self.entries(), path@) {
                Some(d) => r matches Some(x) && x.bytes_view() == d.bytes_view()
                    && x.metrics_view() == d.metrics_view(),
                None => r is None,
            },
    {
        let k = String::from_str(path);
        match find_key(&self.cache, &k) {
            Some(i) => Some(&self.cache[i].1),
            None => None,
        }
    }

    /// Number of fonts loaded.
    pub fn cache_len(&self) -> (r: usize)
        ensures
            r == self.entries().len(),
    {
        self.cache.len()
    }

    /// Loads the font file read from `path`. A path loaded before gives its
    /// cached font (the bytes are not parsed again). Otherwise the bytes are
    /// parsed; on success the font is cached under `path`.
    pub fn load_from_bytes(&mut self, path: &str, bytes: Vec<u8>) -> (r: Result<FontData, FontError>)
        ensures
            match assoc(old(self).entries(), path@) {
                Some(d) => r matches Ok(x) && x.bytes_view() == d.bytes_view()
                    && x.metrics_view() == d.metrics_view() && final(self).entries()
                    == old(self).entries(),
                None => match face_metrics(bytes@) {
                    None => r matches Err(FontError::Parse(_)) && final(self).entries()
                        == old(self).entries(),
                    Some(m) => r matches Ok(x) && x.bytes_view() == bytes@ && x.metrics_view()
                        == (FontMetrics {
                        units_per_em: m.0,
                        ascent: m.1,
                        descent: m.2,
                        line_gap: m.3,
                    }) && final(self).entries().len() == old(self).entries().len() + 1
                        && final(self).entries().drop_last() == old(self).entries()
                        && final(self).entries().last().0@ == path@
                        && final(self).entries().last().1.bytes_view() == bytes@
                        && final(self).entries().last().1.metrics_view() == x.metrics_view(),
                },
            },
    {
        let k = String::from_str(path);
        match find_key(&self.cache, &k) {
            Some(i) => {
                return Ok(self.cache[i].1.clone());
            },
            None => {},
        }
        match parse_metrics(bytes.as_slice()) {
            Err(e) => Err(FontError::Parse(e)),
            Ok(metrics) => {
                let data = FontData { bytes: Arc::new(bytes), metrics };
                let copy = data.clone();
                self.cache.push((k, copy));
                assert(self.cache@.drop_last() =~= old(self).cache@);
                Ok(data)
            },
        }
    }
}

} // verus!
