use vstd::prelude::*;

verus! {

/// 表情包相关 RPC

/// 获取表情包列表请求
///
/// RPC路由: `sticker/package/list`
#[derive(Debug, Clone)]
pub struct StickerPackageListRequest {}

#[derive(Debug, Clone)]
pub struct StickerInfo {
    pub sticker_id: String,
    pub package_id: String,
    pub image_url: String,
    pub alt_text: String,
    pub emoji: Option<String>,
    pub width: u32,
    pub height: u32,
    pub mime_type: String,
}

#[derive(Debug, Clone)]
pub struct StickerPackageInfo {
    pub package_id: String,
    pub name: String,
    pub thumbnail_url: String,
    pub author: String,
    pub description: String,
    pub sticker_count: usize,
    pub stickers: Option<Vec<StickerInfo>>,
}

/// 获取表情包列表响应
///
/// RPC路由: `sticker/package/list`
#[derive(Debug, Clone)]
pub struct StickerPackageListResponse {
    pub packages: Vec<StickerPackageInfo>,
}

/// 获取表情包详情请求
///
/// RPC路由: `sticker/package/detail`
#[derive(Debug, Clone)]
pub struct StickerPackageDetailRequest {
    pub package_id: String,
}

/// 获取表情包详情响应
///
/// RPC路由: `sticker/package/detail`
#[derive(Debug, Clone)]
pub struct StickerPackageDetailResponse {
    pub package: StickerPackageInfo,
}

} // verus!
