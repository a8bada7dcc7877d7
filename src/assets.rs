//! The registry of embedded binary assets: which assets a build embeds, and
//! their sizes.
//!
//! The bytes themselves are placed in static data by the module that embeds
//! them; this registry decides, from the build configuration, which of the
//! files found at build time are kept, and reports their sizes.
use vstd::prelude::*;

verus! {

/// The named assets.
#[derive(Clone, Copy, Debug, PartialEq, Eq, Structural)]
pub enum Asset {
    MinilmModel,
    MinilmTokenizer,
    Codet5Encoder,
    Codet5Decoder,
    Codet5Tokenizer,
    OnnxRuntime,
    YogaLayout,
}

/// Build-time switches that decide which assets are embedded.
#[derive(Clone, Copy, Debug, PartialEq, Eq, Structural)]
pub struct BuildConfig {
    /// Embed no asset at all.
    pub no_models: bool,
    /// Embed the MiniLM model and tokenizer, not the CodeT5 ones.
    pub minilm_only: bool,
    /// Embed the CodeT5 encoder, decoder and tokenizer, not the MiniLM ones.
    pub codet5_only: bool,
    /// Take the unoptimized variants of the runtime and layout modules.
    pub unoptimized_wasm: bool,
}

/// One byte length per asset.
#[derive(Clone, Copy, Debug, PartialEq, Eq, Structural)]
pub struct AssetSizes {
    pub minilm_model: usize,
    pub minilm_tokenizer: usize,
    pub codet5_encoder: usize,
    pub codet5_decoder: usize,
    pub codet5_tokenizer: usize,
    pub onnx_runtime: usize,
    pub yoga_layout: usize,
}

/// Whether a build with configuration `c` embeds asset `a`.
pub open spec fn spec_is_embedded(c: BuildConfig, a: Asset) -> bool {
    match a {
        Asset::MinilmModel | Asset::MinilmTokenizer => !c.no_models && !c.codet5_only,
        Asset::Codet5Encoder | Asset::Codet5Decoder | Asset::Codet5Tokenizer => !c.no_models
            && !c.minilm_only,
        Asset::OnnxRuntime | Asset::YogaLayout => !c.no_models,
    }
}

/// The size that asset `a` has in a build with configuration `c`: the size
/// of its file when it is embedded, else 0.
pub open spec fn spec_kept(c: BuildConfig, a: Asset, file_len: usize) -> usize {
    if spec_is_embedded(c, a) {
        file_len
    } else {
        0
    }
}

impl AssetSizes {
    /// The size of one asset.
    pub open spec fn spec_get(self, a: Asset) -> usize {
        match a {
            Asset::MinilmModel => self.minilm_model,
            Asset::MinilmTokenizer => self.minilm_tokenizer,
            Asset::Codet5Encoder => self.codet5_encoder,
            Asset::Codet5Decoder => self.codet5_decoder,
            Asset::Codet5Tokenizer => self.codet5_tokenizer,
            Asset::OnnxRuntime => self.onnx_runtime,
            Asset::YogaLayout => self.yoga_layout,
        }
    }

    /// The sum of all seven sizes.
    pub open spec fn spec_total(self) -> int {
        self.minilm_model + self.minilm_tokenizer + self.codet5_encoder + self.codet5_decoder
            + self.codet5_tokenizer + self.onnx_runtime + self.yoga_layout
    }

    /// These file sizes, with every asset that configuration `c` leaves
    /// out at size 0.
    pub open spec fn spec_kept_by(self, c: BuildConfig) -> AssetSizes {
        AssetSizes {
            minilm_model: spec_kept(c, Asset::MinilmModel, self.minilm_model),
            minilm_tokenizer: spec_kept(c, Asset::MinilmTokenizer, self.minilm_tokenizer),
            codet5_encoder: spec_kept(c, Asset::Codet5Encoder, self.codet5_encoder),
            codet5_decoder: spec_kept(c, Asset::Codet5Decoder, self.codet5_decoder),
            codet5_tokenizer: spec_kept(c, Asset::Codet5Tokenizer, self.codet5_tokenizer),
            onnx_runtime: spec_kept(c, Asset::OnnxRuntime, self.onnx_runtime),
            yoga_layout: spec_kept(c, Asset::YogaLayout, self.yoga_layout),
        }
    }
}

/// Whether a build with configuration `config` embeds `asset`.
pub fn is_embedded(config: &BuildConfig, asset: Asset) -> (r: bool)
    ensures
        r == spec_is_embedded(*config, asset),
{
    match asset {
        Asset::MinilmModel | Asset::MinilmTokenizer => !config.no_models && !config.codet5_only,
        Asset::Codet5Encoder | Asset::Codet5Decoder | Asset::Codet5Tokenizer => !config.no_models
            && !config.minilm_only,
        Asset::OnnxRuntime | Asset::YogaLayout => !config.no_models,
    }
}

/// The size that `asset` has in a build with configuration `config`, given
/// the size of its file.
pub fn kept_size(config: &BuildConfig, asset: Asset, file_len: usize) -> (r: usize)
    ensures
        r == spec_kept(*config, asset, file_len),
{
    if is_embedded(config, asset) {
        file_len
    } else {
        0
    }
}

/// The sizes of the assets of one build. Their sum fits in a `usize`.
pub struct EmbeddedAssets {
    sizes: AssetSizes,
}

impl EmbeddedAssets {
    #[verifier::type_invariant]
    spec fn total_fits(self) -> bool {
        self.sizes.spec_total() <= usize::MAX
    }

    /// The size of each asset.
    pub closed spec fn sizes(self) -> AssetSizes {
        self.sizes
    }

    /// The registry of a build with configuration `config` whose asset files
    /// have the sizes `files`: each asset the configuration leaves out has
    /// size 0. `None` when the kept sizes add up to more than a `usize`
    /// holds, which no set of files that fits in memory reaches.
    pub fn new(config: &BuildConfig, files: &AssetSizes) -> (r: Option<EmbeddedAssets>)
        ensures
            r is None <==> files.spec_kept_by(*config).spec_total() > usize::MAX,
            r matches Some(e) ==> e.sizes() == files.spec_kept_by(*config),
            r matches Some(e) ==> forall|a: Asset|
                #[trigger] e.sizes().spec_get(a) == spec_kept(*config, a, files.spec_get(a)),
    {
        let sizes = AssetSizes {
            minilm_model: kept_size(config, Asset::MinilmModel, files.minilm_model),
            minilm_tokenizer: kept_size(config, Asset::MinilmTokenizer, files.minilm_tokenizer),
            codet5_encoder: kept_size(config, Asset::Codet5Encoder, files.codet5_encoder),
            codet5_decoder: kept_size(config, Asset::Codet5Decoder, files.codet5_decoder),
            codet5_tokenizer: kept_size(config, Asset::Codet5Tokenizer, files.codet5_tokenizer),
            onnx_runtime: kept_size(config, Asset::OnnxRuntime, files.onnx_runtime),
            yoga_layout: kept_size(config, Asset::YogaLayout, files.yoga_layout),
        };
        let total: u128 = sizes.minilm_model as u128 + sizes.minilm_tokenizer as u128
            + sizes.codet5_encoder as u128 + sizes.codet5_decoder as u128
            + sizes.codet5_tokenizer as u128 + sizes.onnx_runtime as u128
            + sizes.yoga_layout as u128;
        if total > usize::MAX as u128 {
            return None;
        }
        Some(EmbeddedAssets { sizes })
    }

    /// Size of the MiniLM model.
    pub fn get_minilm_model_size(&self) -> (r: usize)
        ensures
            r == self.sizes().minilm_model,
    {
        self.sizes.minilm_model
    }

    /// Size of the MiniLM tokenizer vocabulary.
    pub fn get_minilm_tokenizer_size(&self) -> (r: usize)
        ensures
            r == self.sizes().minilm_tokenizer,
    {
        self.sizes.minilm_tokenizer
    }

    /// Size of the CodeT5 encoder.
    pub fn get_codet5_encoder_size(&self) -> (r: usize)
        ensures
            r == self.sizes().codet5_encoder,
    {
        self.sizes.codet5_encoder
    }

    /// Size of the CodeT5 decoder.
    pub fn get_codet5_decoder_size(&self) -> (r: usize)
        ensures
            r == self.sizes().codet5_decoder,
    {
        self.sizes.codet5_decoder
    }

    /// Size of the CodeT5 tokenizer vocabulary.
    pub fn get_codet5_tokenizer_size(&self) -> (r: usize)
        ensures
            r == self.sizes().codet5_tokenizer,
    {
        self.sizes.codet5_tokenizer
    }

    /// Size of the inference runtime module.
    pub fn get_onnx_runtime_size(&self) -> (r: usize)
        ensures
            r == self.sizes().onnx_runtime,
    {
        self.sizes.onnx_runtime
    }

    /// Size of the layout engine module.
    pub fn get_yoga_layout_size(&self) -> (r: usize)
        ensures
            r == self.sizes().yoga_layout,
    {
        self.sizes.yoga_layout
    }

    /// The sum of the sizes of all assets.
    pub fn get_total_embedded_size(&self) -> (r: usize)
        ensures
            r == self.sizes().spec_total(),
    {
        proof {
            use_type_invariant(self);
        }
        let s = &self.sizes;
        s.minilm_model + s.minilm_tokenizer + s.codet5_encoder + s.codet5_decoder
            + s.codet5_tokenizer + s.onnx_runtime + s.yoga_layout
    }
}

} // verus!
