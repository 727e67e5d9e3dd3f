use vstd::prelude::*;

verus! {

/// What a stream's payload is encoded with: codec identity, picture size,
/// bit rate and the codec's extra configuration bytes.
pub struct Parameters {
    codec_id: u32,
    width: i32,
    height: i32,
    bit_rate: i64,
    extradata: Vec<u8>,
}

pub struct ParametersView {
    pub codec_id: u32,
    pub width: i32,
    pub height: i32,
    pub bit_rate: i64,
    pub extradata: Seq<u8>,
}

impl View for Parameters {
    type V = ParametersView;

    closed spec fn view(&self) -> ParametersView {
        ParametersView {
            codec_id: self.codec_id,
            width: self.width,
            height: self.height,
            bit_rate: self.bit_rate,
            extradata: self.extradata@,
        }
    }
}

impl Parameters {
    /// Parameters of no codec: every number zero, no extra data.
    pub fn new() -> (r: Parameters)
        ensures
            r@ == (ParametersView {
                codec_id: 0,
                width: 0,
                height: 0,
                bit_rate: 0,
                extradata: Seq::empty(),
            }),
    {
        let r = Parameters { codec_id: 0, width: 0, height: 0, bit_rate: 0, extradata: Vec::new() };
        assert(r@.extradata =~= Seq::<u8>::empty());
        r
    }

    pub fn codec_id(&self) -> (r: u32)
        ensures
            r == self@.codec_id,
    {
        self.codec_id
    }

    pub fn width(&self) -> (r: i32)
        ensures
            r == self@.width,
    {
        self.width
    }

    pub fn height(&self) -> (r: i32)
        ensures
            r == self@.height,
    {
        self.height
    }

    pub fn bit_rate(&self) -> (r: i64)
        ensures
            r == self@.bit_rate,
    {
        self.bit_rate
    }

    pub fn extradata(&self) -> (r: &[u8])
        ensures
            r@ == self@.extradata,
    {
        self.extradata.as_slice()
    }

    pub fn set_codec_id(&mut self, id: u32)
        ensures
            final(self)@ == (ParametersView { codec_id: id, ..old(self)@ }),
    {
        self.codec_id = id;
    }

    pub fn set_width(&mut self, width: i32)
        ensures
            final(self)@ == (ParametersView { width, ..old(self)@ }),
    {
        self.width = width;
    }

    pub fn set_height(&mut self, height: i32)
        ensures
            final(self)@ == (ParametersView { height, ..old(self)@ }),
    {
        self.height = height;
    }

    pub fn set_bit_rate(&mut self, bit_rate: i64)
        ensures
            final(self)@ == (ParametersView { bit_rate, ..old(self)@ }),
    {
        self.bit_rate = bit_rate;
    }

    pub fn set_extradata(&mut self, data: &[u8])
        ensures
            final(self)@ == (ParametersView { extradata: data@, ..old(self)@ }),
    {
        let mut v: Vec<u8> = Vec::new();
        let mut i: usize = 0;
        while i < data.len()
            invariant
                i <= data@.len(),
                v@ == data@.subrange(0, i as int),
            decreases data@.len() - i,
        {
            v.push(data[i]);
            i = i + 1;
            assert(v@ =~= data@.subrange(0, i as int));
        }
        assert(v@ =~= data@);
        self.extradata = v;
    }

    /// Overwrites every field with that of `src`, the extra data included, as
    /// a copy of its own: `src` is left as it was.
    pub fn copy_from(&mut self, src: &Parameters)
        ensures
            final(self)@ == src@,
    {
        self.codec_id = src.codec_id;
        self.width = src.width;
        self.height = src.height;
        self.bit_rate = src.bit_rate;
        self.set_extradata(src.extradata.as_slice());
    }
}

} // verus!
