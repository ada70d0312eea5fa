use vstd::prelude::*;

verus! {

// Passive decoded records mirroring the upstream product schema. They carry
// no behaviour beyond structural equality; `Clone` is written by hand so that
// a clone provably keeps the abstract value (the `deep_view`) of the record,
// which the transport contracts rely on.

/// The abstract value of a [`ProductImage`]: every field as a mathematical
/// value.
pub ghost struct ProductImageView {
    pub id: u64,
    pub product_id: u64,
    pub position: u8,
    pub alt: Option<Seq<char>>,
    pub width: u32,
    pub height: u32,
    pub src: Seq<char>,
    pub variant_ids: Seq<u64>,
    pub created_at: Seq<char>,
    pub updated_at: Seq<char>,
}

/// A picture attached to a product, as the platform lists it.
#[derive(Debug, PartialEq)]
pub struct ProductImage {
    pub id: u64,
    pub product_id: u64,
    pub position: u8,
    pub alt: Option<String>,
    pub width: u32,
    pub height: u32,
    pub src: String,
    pub variant_ids: Vec<u64>,
    pub created_at: String,
    pub updated_at: String,
}

impl DeepView for ProductImage {
    type V = ProductImageView;

    open spec fn deep_view(&self) -> ProductImageView {
        ProductImageView {
            id: self.id,
            product_id: self.product_id,
            position: self.position,
            alt: self.alt.deep_view(),
            width: self.width,
            height: self.height,
            src: self.src@,
            variant_ids: self.variant_ids.deep_view(),
            created_at: self.created_at@,
            updated_at: self.updated_at@,
        }
    }
}

impl Clone for ProductImage {
    fn clone(&self) -> (r: Self)
        ensures
            r.deep_view() == self.deep_view(),
    {
        let r = ProductImage {
            id: self.id,
            product_id: self.product_id,
            position: self.position,
            alt: self.alt.clone(),
            width: self.width,
            height: self.height,
            src: self.src.clone(),
            variant_ids: self.variant_ids.clone(),
            created_at: self.created_at.clone(),
            updated_at: self.updated_at.clone(),
        };
        proof {
            assert(r.variant_ids.deep_view() =~= self.variant_ids.deep_view());
            assert(r.alt.deep_view() == self.alt.deep_view());
        }
        r
    }
}

/// The abstract value of a [`ProductOption`]: every field as a mathematical
/// value.
pub ghost struct ProductOptionView {
    pub name: Seq<char>,
    pub values: Seq<Seq<char>>,
    pub position: u8,
}

/// One choice axis of a product (say, colour or size), as the platform lists
/// it.
#[derive(Debug, PartialEq)]
pub struct ProductOption {
    pub name: String,
    pub values: Vec<String>,
    pub position: u8,
}

impl DeepView for ProductOption {
    type V = ProductOptionView;

    open spec fn deep_view(&self) -> ProductOptionView {
        ProductOptionView {
            name: self.name@,
            values: self.values.deep_view(),
            position: self.position,
        }
    }
}

impl Clone for ProductOption {
    fn clone(&self) -> (r: Self)
        ensures
            r.deep_view() == self.deep_view(),
    {
        let r = ProductOption {
            name: self.name.clone(),
            values: self.values.clone(),
            position: self.position,
        };
        proof {
            assert(r.values.deep_view() =~= self.values.deep_view());
        }
        r
    }
}

/// The abstract value of a [`ProductVariant`]: every field as a mathematical
/// value.
pub ghost struct ProductVariantView {
    pub id: u64,
    pub title: Seq<char>,
    pub option1: Option<Seq<char>>,
    pub option2: Option<Seq<char>>,
    pub option3: Option<Seq<char>>,
    pub sku: Option<Seq<char>>,
    pub requires_shipping: bool,
    pub taxable: bool,
    pub featured_image: Option<ProductImageView>,
    pub available: bool,
    pub price: Seq<char>,
    pub grams: u32,
    pub compare_at_price: Option<Seq<char>>,
    pub position: u8,
    pub product_id: u64,
    pub created_at: Seq<char>,
    pub updated_at: Seq<char>,
}

/// One purchasable variant of a product, as the platform lists it.
#[derive(Debug, PartialEq)]
pub struct ProductVariant {
    pub id: u64,
    pub title: String,
    pub option1: Option<String>,
    pub option2: Option<String>,
    pub option3: Option<String>,
    pub sku: Option<String>,
    pub requires_shipping: bool,
    pub taxable: bool,
    pub featured_image: Option<ProductImage>,
    pub available: bool,
    pub price: String,
    pub grams: u32,
    pub compare_at_price: Option<String>,
    pub position: u8,
    pub product_id: u64,
    pub created_at: String,
    pub updated_at: String,
}

impl DeepView for ProductVariant {
    type V = ProductVariantView;

    open spec fn deep_view(&self) -> ProductVariantView {
        ProductVariantView {
            id: self.id,
            title: self.title@,
            option1: self.option1.deep_view(),
            option2: self.option2.deep_view(),
            option3: self.option3.deep_view(),
            sku: self.sku.deep_view(),
            requires_shipping: self.requires_shipping,
            taxable: self.taxable,
            featured_image: self.featured_image.deep_view(),
            available: self.available,
            price: self.price@,
            grams: self.grams,
            compare_at_price: self.compare_at_price.deep_view(),
            position: self.position,
            product_id: self.product_id,
            created_at: self.created_at@,
            updated_at: self.updated_at@,
        }
    }
}

impl Clone for ProductVariant {
    fn clone(&self) -> (r: Self)
        ensures
            r.deep_view() == self.deep_view(),
    {
        let r = ProductVariant {
            id: self.id,
            title: self.title.clone(),
            option1: self.option1.clone(),
            option2: self.option2.clone(),
            option3: self.option3.clone(),
            sku: self.sku.clone(),
            requires_shipping: self.requires_shipping,
            taxable: self.taxable,
            featured_image: self.featured_image.clone(),
            available: self.available,
            price: self.price.clone(),
            grams: self.grams,
            compare_at_price: self.compare_at_price.clone(),
            position: self.position,
            product_id: self.product_id,
            created_at: self.created_at.clone(),
            updated_at: self.updated_at.clone(),
        };
        proof {
            assert(r.option1.deep_view() == self.option1.deep_view());
            assert(r.option2.deep_view() == self.option2.deep_view());
            assert(r.option3.deep_view() == self.option3.deep_view());
            assert(r.sku.deep_view() == self.sku.deep_view());
            assert(r.compare_at_price.deep_view() == self.compare_at_price.deep_view());
            assert(r.featured_image.deep_view() == self.featured_image.deep_view());
        }
        r
    }
}

/// The abstract value of a [`Product`]: every field as a mathematical value.
pub ghost struct ProductView {
    pub id: u64,
    pub title: Seq<char>,
    pub handle: Seq<char>,
    pub body_html: Option<Seq<char>>,
    pub vendor: Seq<char>,
    pub product_type: Seq<char>,
    pub tags: Seq<Seq<char>>,
    pub variants: Seq<ProductVariantView>,
    pub images: Seq<ProductImageView>,
    pub options: Seq<ProductOptionView>,
    pub published_at: Seq<char>,
    pub created_at: Seq<char>,
    pub updated_at: Seq<char>,
}

/// One product record, as the platform lists it. Timestamps stay as the
/// upstream text.
#[derive(Debug, PartialEq)]
pub struct Product {
    pub id: u64,
    pub title: String,
    pub handle: String,
    pub body_html: Option<String>,
    pub vendor: String,
    pub product_type: String,
    pub tags: Vec<String>,
    pub variants: Vec<ProductVariant>,
    pub images: Vec<ProductImage>,
    pub options: Vec<ProductOption>,
    pub published_at: String,
    pub created_at: String,
    pub updated_at: String,
}

impl DeepView for Product {
    type V = ProductView;

    open spec fn deep_view(&self) -> ProductView {
        ProductView {
            id: self.id,
            title: self.title@,
            handle: self.handle@,
            body_html: self.body_html.deep_view(),
            vendor: self.vendor@,
            product_type: self.product_type@,
            tags: self.tags.deep_view(),
            variants: self.variants.deep_view(),
            images: self.images.deep_view(),
            options: self.options.deep_view(),
            published_at: self.published_at@,
            created_at: self.created_at@,
            updated_at: self.updated_at@,
        }
    }
}

impl Clone for Product {
    fn clone(&self) -> (r: Self)
        ensures
            r.deep_view() == self.deep_view(),
    {
        let r = Product {
            id: self.id,
            title: self.title.clone(),
            handle: self.handle.clone(),
            body_html: self.body_html.clone(),
            vendor: self.vendor.clone(),
            product_type: self.product_type.clone(),
            tags: self.tags.clone(),
            variants: self.variants.clone(),
            images: self.images.clone(),
            options: self.options.clone(),
            published_at: self.published_at.clone(),
            created_at: self.created_at.clone(),
            updated_at: self.updated_at.clone(),
        };
        proof {
            assert(r.body_html.deep_view() == self.body_html.deep_view());
            assert(r.tags.deep_view() =~= self.tags.deep_view());
            assert(r.variants.deep_view() =~= self.variants.deep_view());
            assert(r.images.deep_view() =~= self.images.deep_view());
            assert(r.options.deep_view() =~= self.options.deep_view());
        }
        r
    }
}

} // verus!
