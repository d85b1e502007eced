//! A builder for a Tee: collects where the sheet comes from and how it is
//! laid out, then parses it.

use vstd::prelude::*;

use image::ImageFormat;

use crate::error::{Result, TeeError};
use crate::tee::uv::{tee_uv_layout, UV};
use crate::tee::{parse_outcome, Tee};

verus! {

/// What has been set so far: the encoded sheet and its format, or an
/// address to fetch it from, and the layout to cut it by.
#[derive(Debug, Default, Clone)]
pub struct TeeBuilder {
    pub data: Option<Vec<u8>>,
    pub format: Option<ImageFormat>,
    pub url: Option<String>,
    pub uv: Option<UV>,
}

/// Where a builder takes its sheet from.
#[derive(Debug)]
pub enum SheetSource {
    /// Encoded bytes at hand, and their format.
    Data { data: Vec<u8>, format: ImageFormat },
    /// An address to fetch the bytes from; the format comes with the answer.
    Url { url: String },
}

impl TeeBuilder {
    /// A builder with nothing set.
    pub fn new() -> (r: Self)
        ensures
            r.data.is_none(),
            r.format.is_none(),
            r.url.is_none(),
            r.uv.is_none(),
    {
        Self { data: None, format: None, url: None, uv: None }
    }

    /// Sets the encoded sheet and its format.
    pub fn with_data(self, data: Vec<u8>, format: ImageFormat) -> (r: Self)
        ensures
            r.data == Some(data),
            r.format == Some(format),
            r.url == self.url,
            r.uv == self.uv,
    {
        Self { data: Some(data), format: Some(format), url: self.url, uv: self.uv }
    }

    /// Sets the address to fetch the sheet from.
    pub fn with_url(self, url: &str) -> (r: Self)
        ensures
            r.url.is_some(),
            r.url.unwrap()@ == url@,
            r.data == self.data,
            r.format == self.format,
            r.uv == self.uv,
    {
        Self { data: self.data, format: self.format, url: Some(url.to_owned()), uv: self.uv }
    }

    /// Sets the layout by which the sheet is cut.
    pub fn with_uv(self, uv: UV) -> (r: Self)
        ensures
            r.uv == Some(uv),
            r.data == self.data,
            r.format == self.format,
            r.url == self.url,
    {
        Self { data: self.data, format: self.format, url: self.url, uv: Some(uv) }
    }

    /// The layout that this builder cuts by: the one that was set, else the
    /// standard one.
    pub open spec fn layout(self) -> UV {
        match self.uv {
            Some(uv) => uv,
            None => tee_uv_layout(),
        }
    }

    /// The source that this builder is configured for, if it is configured
    /// for one: the data where data and format are both set, whatever else
    /// is; the address where only it is set.
    pub open spec fn configured(self) -> Option<SheetSource> {
        match (self.data, self.format, self.url) {
            (Some(data), Some(format), _) => Some(SheetSource::Data { data, format }),
            (None, None, Some(url)) => Some(SheetSource::Url { url }),
            _ => None,
        }
    }

    /// Decides where the sheet comes from and which layout cuts it, or says
    /// that the configuration names no usable source.
    pub fn source(self) -> (r: Result<(SheetSource, UV)>)
        ensures
            match self.configured() {
                Some(source) => r == Ok::<(SheetSource, UV), TeeError>((source, self.layout())),
                None => r == Err::<(SheetSource, UV), TeeError>(
                    TeeError::InvalidBuilderConfiguration,
                ),
            },
    {
        let uv = match self.uv {
            Some(uv) => uv,
            None => tee_uv_layout(),
        };
        match (self.data, self.format, self.url) {
            (Some(data), Some(format), _) => Ok((SheetSource::Data { data, format }, uv)),
            (None, None, Some(url)) => Ok((SheetSource::Url { url }, uv)),
            _ => Err(TeeError::InvalidBuilderConfiguration),
        }
    }

    /// Parses the Tee from the data that was set. A builder without data and
    /// format has nothing to parse here, whether or not an address is set.
    pub fn build(self) -> (r: Result<Tee>)
        ensures
            match (self.data, self.format) {
                (Some(data), Some(format)) => parse_outcome(r, data@, self.layout(), format),
                _ => r matches Err(TeeError::InvalidBuilderConfiguration),
            },
    {
        match (self.data, self.format, self.uv) {
            (Some(data), Some(format), uv) => match uv {
                Some(uv) => Tee::new_with_uv(data.as_slice(), uv, format),
                None => Tee::new(data.as_slice(), format),
            },
            _ => Err(TeeError::InvalidBuilderConfiguration),
        }
    }
}

} // verus!
