//! The cheat sheets: commands of five command-line tools, filtered by
//! category and by a search over commands and descriptions, with favourites.
use vstd::prelude::*;
use crate::text::contains;
use crate::text::contains_str;
use crate::text::lower;
use crate::text::lowercase;
use crate::text::same_text;
use crate::text::string_views;

verus! {

/// The tools with a cheat sheet.
#[derive(Clone, Copy, Debug, PartialEq, Eq, Structural)]
pub enum ToolType {
    Git,
    Docker,
    Kubernetes,
    Tmux,
    Bash,
}

/// The translation key of a tool's name.
pub open spec fn tool_key(t: ToolType) -> Seq<char> {
    match t {
        ToolType::Git => "cheatsheet_viewer.tool_git"@,
        ToolType::Docker => "cheatsheet_viewer.tool_docker"@,
        ToolType::Kubernetes => "cheatsheet_viewer.tool_kubernetes"@,
        ToolType::Tmux => "cheatsheet_viewer.tool_tmux"@,
        ToolType::Bash => "cheatsheet_viewer.tool_bash"@,
    }
}

/// The short mark of a tool.
pub open spec fn tool_icon(t: ToolType) -> Seq<char> {
    match t {
        ToolType::Git => "Git"@,
        ToolType::Docker => "Dkr"@,
        ToolType::Kubernetes => "K8s"@,
        ToolType::Tmux => "Tmx"@,
        ToolType::Bash => "Sh"@,
    }
}

impl ToolType {
    /// The tools in the order of their buttons.
    pub fn all() -> (r: Vec<ToolType>)
        ensures
            r@ == seq![ToolType::Git, ToolType::Docker, ToolType::Kubernetes, ToolType::Tmux, ToolType::Bash],
    {
        let r = vec![ToolType::Git, ToolType::Docker, ToolType::Kubernetes, ToolType::Tmux, ToolType::Bash];
        assert(r@ =~= seq![ToolType::Git, ToolType::Docker, ToolType::Kubernetes, ToolType::Tmux, ToolType::Bash]);
        r
    }

    /// The translation key of the tool's name.
    pub fn translation_key(&self) -> (s: &'static str)
        ensures
            s@ == tool_key(*self),
    {
        match self {
            ToolType::Git => "cheatsheet_viewer.tool_git",
            ToolType::Docker => "cheatsheet_viewer.tool_docker",
            ToolType::Kubernetes => "cheatsheet_viewer.tool_kubernetes",
            ToolType::Tmux => "cheatsheet_viewer.tool_tmux",
            ToolType::Bash => "cheatsheet_viewer.tool_bash",
        }
    }

    /// The short mark of the tool.
    pub fn icon(&self) -> (s: &'static str)
        ensures
            s@ == tool_icon(*self),
    {
        match self {
            ToolType::Git => "Git",
            ToolType::Docker => "Dkr",
            ToolType::Kubernetes => "K8s",
            ToolType::Tmux => "Tmx",
            ToolType::Bash => "Sh",
        }
    }
}

/// The groups of commands; `All` selects every group.
#[derive(Clone, Copy, Debug, PartialEq, Eq, Structural)]
pub enum CheatsheetCategory {
    All,
    Basic,
    Branch,
    Remote,
    Advanced,
    Container,
    Image,
    Network,
    Volume,
    Pod,
    Service,
    Deployment,
    Config,
    Session,
    Window,
    Pane,
    FileOps,
    TextProcessing,
    Process,
    Navigation,
}

/// The groups offered for a tool, `All` first.
pub open spec fn categories_for(t: ToolType) -> Seq<CheatsheetCategory> {
    match t {
        ToolType::Git => seq![
            CheatsheetCategory::All,
            CheatsheetCategory::Basic,
            CheatsheetCategory::Branch,
            CheatsheetCategory::Remote,
            CheatsheetCategory::Advanced,
        ],
        ToolType::Docker => seq![
            CheatsheetCategory::All,
            CheatsheetCategory::Container,
            CheatsheetCategory::Image,
            CheatsheetCategory::Network,
            CheatsheetCategory::Volume,
        ],
        ToolType::Kubernetes => seq![
            CheatsheetCategory::All,
            CheatsheetCategory::Pod,
            CheatsheetCategory::Service,
            CheatsheetCategory::Deployment,
            CheatsheetCategory::Config,
        ],
        ToolType::Tmux => seq![
            CheatsheetCategory::All,
            CheatsheetCategory::Session,
            CheatsheetCategory::Window,
            CheatsheetCategory::Pane,
            CheatsheetCategory::Navigation,
        ],
        ToolType::Bash => seq![
            CheatsheetCategory::All,
            CheatsheetCategory::FileOps,
            CheatsheetCategory::TextProcessing,
            CheatsheetCategory::Process,
            CheatsheetCategory::Navigation,
        ],
    }
}

/// The translation key of a group's name.
pub open spec fn cheat_category_key(c: CheatsheetCategory) -> Seq<char> {
    match c {
        CheatsheetCategory::All => "cheatsheet_viewer.cat_all"@,
        CheatsheetCategory::Basic => "cheatsheet_viewer.cat_basic"@,
        CheatsheetCategory::Branch => "cheatsheet_viewer.cat_branch"@,
        CheatsheetCategory::Remote => "cheatsheet_viewer.cat_remote"@,
        CheatsheetCategory::Advanced => "cheatsheet_viewer.cat_advanced"@,
        CheatsheetCategory::Container => "cheatsheet_viewer.cat_container"@,
        CheatsheetCategory::Image => "cheatsheet_viewer.cat_image"@,
        CheatsheetCategory::Network => "cheatsheet_viewer.cat_network"@,
        CheatsheetCategory::Volume => "cheatsheet_viewer.cat_volume"@,
        CheatsheetCategory::Pod => "cheatsheet_viewer.cat_pod"@,
        CheatsheetCategory::Service => "cheatsheet_viewer.cat_service"@,
        CheatsheetCategory::Deployment => "cheatsheet_viewer.cat_deployment"@,
        CheatsheetCategory::Config => "cheatsheet_viewer.cat_config"@,
        CheatsheetCategory::Session => "cheatsheet_viewer.cat_session"@,
        CheatsheetCategory::Window => "cheatsheet_viewer.cat_window"@,
        CheatsheetCategory::Pane => "cheatsheet_viewer.cat_pane"@,
        CheatsheetCategory::FileOps => "cheatsheet_viewer.cat_file_ops"@,
        CheatsheetCategory::TextProcessing => "cheatsheet_viewer.cat_text_processing"@,
        CheatsheetCategory::Process => "cheatsheet_viewer.cat_process"@,
        CheatsheetCategory::Navigation => "cheatsheet_viewer.cat_navigation"@,
    }
}

impl CheatsheetCategory {
    /// The groups offered for a tool, `All` first.
    pub fn for_tool(tool: ToolType) -> (r: Vec<CheatsheetCategory>)
        ensures
            r@ == categories_for(tool),
    {
        let r = match tool {
            ToolType::Git => vec![
                CheatsheetCategory::All,
                CheatsheetCategory::Basic,
                CheatsheetCategory::Branch,
                CheatsheetCategory::Remote,
                CheatsheetCategory::Advanced,
            ],
            ToolType::Docker => vec![
                CheatsheetCategory::All,
                CheatsheetCategory::Container,
                CheatsheetCategory::Image,
                CheatsheetCategory::Network,
                CheatsheetCategory::Volume,
            ],
            ToolType::Kubernetes => vec![
                CheatsheetCategory::All,
                CheatsheetCategory::Pod,
                CheatsheetCategory::Service,
                CheatsheetCategory::Deployment,
                CheatsheetCategory::Config,
            ],
            ToolType::Tmux => vec![
                CheatsheetCategory::All,
                CheatsheetCategory::Session,
                CheatsheetCategory::Window,
                CheatsheetCategory::Pane,
                CheatsheetCategory::Navigation,
            ],
            ToolType::Bash => vec![
                CheatsheetCategory::All,
                CheatsheetCategory::FileOps,
                CheatsheetCategory::TextProcessing,
                CheatsheetCategory::Process,
                CheatsheetCategory::Navigation,
            ],
        };
        assert(r@ =~= categories_for(tool));
        r
    }

    /// The translation key of the group's name.
    pub fn translation_key(&self) -> (s: &'static str)
        ensures
            s@ == cheat_category_key(*self),
    {
        match self {
            CheatsheetCategory::All => "cheatsheet_viewer.cat_all",
            CheatsheetCategory::Basic => "cheatsheet_viewer.cat_basic",
            CheatsheetCategory::Branch => "cheatsheet_viewer.cat_branch",
            CheatsheetCategory::Remote => "cheatsheet_viewer.cat_remote",
            CheatsheetCategory::Advanced => "cheatsheet_viewer.cat_advanced",
            CheatsheetCategory::Container => "cheatsheet_viewer.cat_container",
            CheatsheetCategory::Image => "cheatsheet_viewer.cat_image",
            CheatsheetCategory::Network => "cheatsheet_viewer.cat_network",
            CheatsheetCategory::Volume => "cheatsheet_viewer.cat_volume",
            CheatsheetCategory::Pod => "cheatsheet_viewer.cat_pod",
            CheatsheetCategory::Service => "cheatsheet_viewer.cat_service",
            CheatsheetCategory::Deployment => "cheatsheet_viewer.cat_deployment",
            CheatsheetCategory::Config => "cheatsheet_viewer.cat_config",
            CheatsheetCategory::Session => "cheatsheet_viewer.cat_session",
            CheatsheetCategory::Window => "cheatsheet_viewer.cat_window",
            CheatsheetCategory::Pane => "cheatsheet_viewer.cat_pane",
            CheatsheetCategory::FileOps => "cheatsheet_viewer.cat_file_ops",
            CheatsheetCategory::TextProcessing => "cheatsheet_viewer.cat_text_processing",
            CheatsheetCategory::Process => "cheatsheet_viewer.cat_process",
            CheatsheetCategory::Navigation => "cheatsheet_viewer.cat_navigation",
        }
    }
}

/// One command: the command line, what it does in English and Japanese, and
/// its group.
#[derive(Clone, Copy)]
pub struct CheatsheetEntry {
    pub command: &'static str,
    pub desc_en: &'static str,
    pub desc_ja: &'static str,
    pub category: CheatsheetCategory,
}

/// A command as values.
pub struct CheatView {
    pub command: Seq<char>,
    pub desc_en: Seq<char>,
    pub desc_ja: Seq<char>,
    pub category: CheatsheetCategory,
}

impl View for CheatsheetEntry {
    type V = CheatView;

    open spec fn view(&self) -> CheatView {
        CheatView {
            command: self.command@,
            desc_en: self.desc_en@,
            desc_ja: self.desc_ja@,
            category: self.category,
        }
    }
}

/// The views of a list of commands.
pub open spec fn cheat_views(v: Seq<CheatsheetEntry>) -> Seq<CheatView> {
    v.map_values(|e: CheatsheetEntry| e@)
}

/// A command from its parts.
pub open spec fn cs(command: &str, desc_en: &str, desc_ja: &str, category: CheatsheetCategory) -> CheatView {
    CheatView { command: command@, desc_en: desc_en@, desc_ja: desc_ja@, category }
}

/// One command.
fn entry(
    command: &'static str,
    desc_en: &'static str,
    desc_ja: &'static str,
    category: CheatsheetCategory,
) -> (e: CheatsheetEntry)
    ensures
        e@ == cs(command, desc_en, desc_ja, category),
{
    CheatsheetEntry { command, desc_en, desc_ja, category }
}


/// The commands of Git, in the order listed.
pub open spec fn git_table() -> Seq<CheatView> {
    seq![
        cs("git init", "Initialize a new repository", "新しいリポジトリを初期化", CheatsheetCategory::Basic),
        cs("git clone <url>", "Clone a repository", "リポジトリをクローン", CheatsheetCategory::Basic),
        cs("git status", "Show working tree status", "作業ツリーの状態を表示", CheatsheetCategory::Basic),
        cs("git add <file>", "Stage file changes", "ファイルの変更をステージ", CheatsheetCategory::Basic),
        cs("git add .", "Stage all changes", "すべての変更をステージ", CheatsheetCategory::Basic),
        cs("git commit -m \"message\"", "Commit staged changes", "ステージした変更をコミット", CheatsheetCategory::Basic),
        cs("git commit --amend", "Amend last commit", "最後のコミットを修正", CheatsheetCategory::Basic),
        cs("git log", "Show commit history", "コミット履歴を表示", CheatsheetCategory::Basic),
        cs("git log --oneline", "Show compact commit log", "コンパクトなコミットログを表示", CheatsheetCategory::Basic),
        cs("git diff", "Show unstaged changes", "ステージされていない変更を表示", CheatsheetCategory::Basic),
        cs("git diff --staged", "Show staged changes", "ステージされた変更を表示", CheatsheetCategory::Basic),
        cs("git rm <file>", "Remove file from tracking", "ファイルを追跡から削除", CheatsheetCategory::Basic),
        cs("git mv <old> <new>", "Move or rename a file", "ファイルの移動・名前変更", CheatsheetCategory::Basic),
        cs("git branch", "List branches", "ブランチ一覧を表示", CheatsheetCategory::Branch),
        cs("git branch <name>", "Create a new branch", "新しいブランチを作成", CheatsheetCategory::Branch),
        cs("git checkout <branch>", "Switch to a branch", "ブランチに切り替え", CheatsheetCategory::Branch),
        cs("git checkout -b <branch>", "Create and switch to a branch", "ブランチを作成して切り替え", CheatsheetCategory::Branch),
        cs("git switch <branch>", "Switch to a branch (new syntax)", "ブランチに切り替え（新構文）", CheatsheetCategory::Branch),
        cs("git merge <branch>", "Merge a branch into current", "ブランチを現在のブランチにマージ", CheatsheetCategory::Branch),
        cs("git rebase <branch>", "Rebase current branch", "現在のブランチをリベース", CheatsheetCategory::Branch),
        cs("git branch -d <branch>", "Delete a branch", "ブランチを削除", CheatsheetCategory::Branch),
        cs("git branch -m <old> <new>", "Rename a branch", "ブランチの名前を変更", CheatsheetCategory::Branch),
        cs("git remote -v", "List remote repositories", "リモートリポジトリ一覧を表示", CheatsheetCategory::Remote),
        cs("git remote add <name> <url>", "Add a remote repository", "リモートリポジトリを追加", CheatsheetCategory::Remote),
        cs("git fetch", "Fetch from remote", "リモートからフェッチ", CheatsheetCategory::Remote),
        cs("git pull", "Pull changes from remote", "リモートから変更をプル", CheatsheetCategory::Remote),
        cs("git push", "Push changes to remote", "変更をリモートにプッシュ", CheatsheetCategory::Remote),
        cs("git push -u origin <branch>", "Push and set upstream branch", "上流ブランチを設定してプッシュ", CheatsheetCategory::Remote),
        cs("git push origin --delete <branch>", "Delete a remote branch", "リモートブランチを削除", CheatsheetCategory::Remote),
        cs("git stash", "Stash current changes", "現在の変更をスタッシュ", CheatsheetCategory::Advanced),
        cs("git stash pop", "Apply and remove last stash", "最後のスタッシュを適用して削除", CheatsheetCategory::Advanced),
        cs("git stash list", "List all stashes", "すべてのスタッシュを一覧表示", CheatsheetCategory::Advanced),
        cs("git reset HEAD <file>", "Unstage a file", "ファイルのステージを取り消し", CheatsheetCategory::Advanced),
        cs("git reset --hard HEAD~1", "Undo last commit (discard changes)", "最後のコミットを取り消し（変更を破棄）", CheatsheetCategory::Advanced),
        cs("git reset --soft HEAD~1", "Undo last commit (keep changes)", "最後のコミットを取り消し（変更を保持）", CheatsheetCategory::Advanced),
        cs("git cherry-pick <commit>", "Apply a specific commit", "特定のコミットを適用", CheatsheetCategory::Advanced),
        cs("git tag <name>", "Create a tag", "タグを作成", CheatsheetCategory::Advanced),
        cs("git bisect start", "Start binary search for a bug", "バグの二分探索を開始", CheatsheetCategory::Advanced),
        cs("git reflog", "Show reference log", "参照ログを表示", CheatsheetCategory::Advanced),
    ]
}

/// The commands of Git, in the order listed.
pub fn get_git_cheatsheet() -> (r: Vec<CheatsheetEntry>)
    ensures
        cheat_views(r@) == git_table(),
{
    let mut r: Vec<CheatsheetEntry> = Vec::new();
    r.push(entry("git init", "Initialize a new repository", "新しいリポジトリを初期化", CheatsheetCategory::Basic));
    r.push(entry("git clone <url>", "Clone a repository", "リポジトリをクローン", CheatsheetCategory::Basic));
    r.push(entry("git status", "Show working tree status", "作業ツリーの状態を表示", CheatsheetCategory::Basic));
    r.push(entry("git add <file>", "Stage file changes", "ファイルの変更をステージ", CheatsheetCategory::Basic));
    r.push(entry("git add .", "Stage all changes", "すべての変更をステージ", CheatsheetCategory::Basic));
    r.push(entry("git commit -m \"message\"", "Commit staged changes", "ステージした変更をコミット", CheatsheetCategory::Basic));
    r.push(entry("git commit --amend", "Amend last commit", "最後のコミットを修正", CheatsheetCategory::Basic));
    r.push(entry("git log", "Show commit history", "コミット履歴を表示", CheatsheetCategory::Basic));
    r.push(entry("git log --oneline", "Show compact commit log", "コンパクトなコミットログを表示", CheatsheetCategory::Basic));
    r.push(entry("git diff", "Show unstaged changes", "ステージされていない変更を表示", CheatsheetCategory::Basic));
    r.push(entry("git diff --staged", "Show staged changes", "ステージされた変更を表示", CheatsheetCategory::Basic));
    r.push(entry("git rm <file>", "Remove file from tracking", "ファイルを追跡から削除", CheatsheetCategory::Basic));
    r.push(entry("git mv <old> <new>", "Move or rename a file", "ファイルの移動・名前変更", CheatsheetCategory::Basic));
    r.push(entry("git branch", "List branches", "ブランチ一覧を表示", CheatsheetCategory::Branch));
    r.push(entry("git branch <name>", "Create a new branch", "新しいブランチを作成", CheatsheetCategory::Branch));
    r.push(entry("git checkout <branch>", "Switch to a branch", "ブランチに切り替え", CheatsheetCategory::Branch));
    r.push(entry("git checkout -b <branch>", "Create and switch to a branch", "ブランチを作成して切り替え", CheatsheetCategory::Branch));
    r.push(entry("git switch <branch>", "Switch to a branch (new syntax)", "ブランチに切り替え（新構文）", CheatsheetCategory::Branch));
    r.push(entry("git merge <branch>", "Merge a branch into current", "ブランチを現在のブランチにマージ", CheatsheetCategory::Branch));
    r.push(entry("git rebase <branch>", "Rebase current branch", "現在のブランチをリベース", CheatsheetCategory::Branch));
    r.push(entry("git branch -d <branch>", "Delete a branch", "ブランチを削除", CheatsheetCategory::Branch));
    r.push(entry("git branch -m <old> <new>", "Rename a branch", "ブランチの名前を変更", CheatsheetCategory::Branch));
    r.push(entry("git remote -v", "List remote repositories", "リモートリポジトリ一覧を表示", CheatsheetCategory::Remote));
    r.push(entry("git remote add <name> <url>", "Add a remote repository", "リモートリポジトリを追加", CheatsheetCategory::Remote));
    r.push(entry("git fetch", "Fetch from remote", "リモートからフェッチ", CheatsheetCategory::Remote));
    r.push(entry("git pull", "Pull changes from remote", "リモートから変更をプル", CheatsheetCategory::Remote));
    r.push(entry("git push", "Push changes to remote", "変更をリモートにプッシュ", CheatsheetCategory::Remote));
    r.push(entry("git push -u origin <branch>", "Push and set upstream branch", "上流ブランチを設定してプッシュ", CheatsheetCategory::Remote));
    r.push(entry("git push origin --delete <branch>", "Delete a remote branch", "リモートブランチを削除", CheatsheetCategory::Remote));
    r.push(entry("git stash", "Stash current changes", "現在の変更をスタッシュ", CheatsheetCategory::Advanced));
    r.push(entry("git stash pop", "Apply and remove last stash", "最後のスタッシュを適用して削除", CheatsheetCategory::Advanced));
    r.push(entry("git stash list", "List all stashes", "すべてのスタッシュを一覧表示", CheatsheetCategory::Advanced));
    r.push(entry("git reset HEAD <file>", "Unstage a file", "ファイルのステージを取り消し", CheatsheetCategory::Advanced));
    r.push(entry("git reset --hard HEAD~1", "Undo last commit (discard changes)", "最後のコミットを取り消し（変更を破棄）", CheatsheetCategory::Advanced));
    r.push(entry("git reset --soft HEAD~1", "Undo last commit (keep changes)", "最後のコミットを取り消し（変更を保持）", CheatsheetCategory::Advanced));
    r.push(entry("git cherry-pick <commit>", "Apply a specific commit", "特定のコミットを適用", CheatsheetCategory::Advanced));
    r.push(entry("git tag <name>", "Create a tag", "タグを作成", CheatsheetCategory::Advanced));
    r.push(entry("git bisect start", "Start binary search for a bug", "バグの二分探索を開始", CheatsheetCategory::Advanced));
    r.push(entry("git reflog", "Show reference log", "参照ログを表示", CheatsheetCategory::Advanced));
    assert(cheat_views(r@) =~= git_table());
    r
}


/// The commands of Docker, in the order listed.
pub open spec fn docker_table() -> Seq<CheatView> {
    seq![
        cs("docker run <image>", "Run a container", "コンテナを実行", CheatsheetCategory::Container),
        cs("docker run -d <image>", "Run container in background", "コンテナをバックグラウンドで実行", CheatsheetCategory::Container),
        cs("docker run -it <image> /bin/bash", "Run container interactively", "コンテナをインタラクティブに実行", CheatsheetCategory::Container),
        cs("docker run -p 8080:80 <image>", "Run with port mapping", "ポートマッピングで実行", CheatsheetCategory::Container),
        cs("docker run -v /host:/container <image>", "Run with volume mount", "ボリュームマウントで実行", CheatsheetCategory::Container),
        cs("docker ps", "List running containers", "実行中のコンテナを一覧表示", CheatsheetCategory::Container),
        cs("docker ps -a", "List all containers", "すべてのコンテナを一覧表示", CheatsheetCategory::Container),
        cs("docker stop <container>", "Stop a container", "コンテナを停止", CheatsheetCategory::Container),
        cs("docker start <container>", "Start a stopped container", "停止したコンテナを開始", CheatsheetCategory::Container),
        cs("docker rm <container>", "Remove a container", "コンテナを削除", CheatsheetCategory::Container),
        cs("docker exec -it <container> /bin/bash", "Execute command in container", "コンテナ内でコマンドを実行", CheatsheetCategory::Container),
        cs("docker logs <container>", "View container logs", "コンテナのログを表示", CheatsheetCategory::Container),
        cs("docker logs -f <container>", "Follow container logs", "コンテナのログをフォロー", CheatsheetCategory::Container),
        cs("docker inspect <container>", "Inspect container details", "コンテナの詳細を確認", CheatsheetCategory::Container),
        cs("docker images", "List images", "イメージを一覧表示", CheatsheetCategory::Image),
        cs("docker pull <image>", "Pull an image", "イメージをプル", CheatsheetCategory::Image),
        cs("docker build -t <name> .", "Build an image from Dockerfile", "Dockerfileからイメージをビルド", CheatsheetCategory::Image),
        cs("docker rmi <image>", "Remove an image", "イメージを削除", CheatsheetCategory::Image),
        cs("docker tag <image> <new_tag>", "Tag an image", "イメージにタグを付ける", CheatsheetCategory::Image),
        cs("docker push <image>", "Push image to registry", "イメージをレジストリにプッシュ", CheatsheetCategory::Image),
        cs("docker image prune", "Remove unused images", "未使用のイメージを削除", CheatsheetCategory::Image),
        cs("docker network ls", "List networks", "ネットワークを一覧表示", CheatsheetCategory::Network),
        cs("docker network create <name>", "Create a network", "ネットワークを作成", CheatsheetCategory::Network),
        cs("docker network connect <net> <container>", "Connect container to network", "コンテナをネットワークに接続", CheatsheetCategory::Network),
        cs("docker network inspect <name>", "Inspect network details", "ネットワークの詳細を確認", CheatsheetCategory::Network),
        cs("docker volume ls", "List volumes", "ボリュームを一覧表示", CheatsheetCategory::Volume),
        cs("docker volume create <name>", "Create a volume", "ボリュームを作成", CheatsheetCategory::Volume),
        cs("docker volume rm <name>", "Remove a volume", "ボリュームを削除", CheatsheetCategory::Volume),
        cs("docker volume prune", "Remove unused volumes", "未使用のボリュームを削除", CheatsheetCategory::Volume),
        cs("docker compose up", "Start services with Compose", "Composeでサービスを起動", CheatsheetCategory::Container),
        cs("docker compose up -d", "Start services in background", "バックグラウンドでサービスを起動", CheatsheetCategory::Container),
        cs("docker compose down", "Stop and remove services", "サービスを停止して削除", CheatsheetCategory::Container),
        cs("docker compose logs", "View Compose logs", "Composeのログを表示", CheatsheetCategory::Container),
        cs("docker system prune", "Remove all unused data", "未使用のデータをすべて削除", CheatsheetCategory::Image),
    ]
}

/// The commands of Docker, in the order listed.
pub fn get_docker_cheatsheet() -> (r: Vec<CheatsheetEntry>)
    ensures
        cheat_views(r@) == docker_table(),
{
    let mut r: Vec<CheatsheetEntry> = Vec::new();
    r.push(entry("docker run <image>", "Run a container", "コンテナを実行", CheatsheetCategory::Container));
    r.push(entry("docker run -d <image>", "Run container in background", "コンテナをバックグラウンドで実行", CheatsheetCategory::Container));
    r.push(entry("docker run -it <image> /bin/bash", "Run container interactively", "コンテナをインタラクティブに実行", CheatsheetCategory::Container));
    r.push(entry("docker run -p 8080:80 <image>", "Run with port mapping", "ポートマッピングで実行", CheatsheetCategory::Container));
    r.push(entry("docker run -v /host:/container <image>", "Run with volume mount", "ボリュームマウントで実行", CheatsheetCategory::Container));
    r.push(entry("docker ps", "List running containers", "実行中のコンテナを一覧表示", CheatsheetCategory::Container));
    r.push(entry("docker ps -a", "List all containers", "すべてのコンテナを一覧表示", CheatsheetCategory::Container));
    r.push(entry("docker stop <container>", "Stop a container", "コンテナを停止", CheatsheetCategory::Container));
    r.push(entry("docker start <container>", "Start a stopped container", "停止したコンテナを開始", CheatsheetCategory::Container));
    r.push(entry("docker rm <container>", "Remove a container", "コンテナを削除", CheatsheetCategory::Container));
    r.push(entry("docker exec -it <container> /bin/bash", "Execute command in container", "コンテナ内でコマンドを実行", CheatsheetCategory::Container));
    r.push(entry("docker logs <container>", "View container logs", "コンテナのログを表示", CheatsheetCategory::Container));
    r.push(entry("docker logs -f <container>", "Follow container logs", "コンテナのログをフォロー", CheatsheetCategory::Container));
    r.push(entry("docker inspect <container>", "Inspect container details", "コンテナの詳細を確認", CheatsheetCategory::Container));
    r.push(entry("docker images", "List images", "イメージを一覧表示", CheatsheetCategory::Image));
    r.push(entry("docker pull <image>", "Pull an image", "イメージをプル", CheatsheetCategory::Image));
    r.push(entry("docker build -t <name> .", "Build an image from Dockerfile", "Dockerfileからイメージをビルド", CheatsheetCategory::Image));
    r.push(entry("docker rmi <image>", "Remove an image", "イメージを削除", CheatsheetCategory::Image));
    r.push(entry("docker tag <image> <new_tag>", "Tag an image", "イメージにタグを付ける", CheatsheetCategory::Image));
    r.push(entry("docker push <image>", "Push image to registry", "イメージをレジストリにプッシュ", CheatsheetCategory::Image));
    r.push(entry("docker image prune", "Remove unused images", "未使用のイメージを削除", CheatsheetCategory::Image));
    r.push(entry("docker network ls", "List networks", "ネットワークを一覧表示", CheatsheetCategory::Network));
    r.push(entry("docker network create <name>", "Create a network", "ネットワークを作成", CheatsheetCategory::Network));
    r.push(entry("docker network connect <net> <container>", "Connect container to network", "コンテナをネットワークに接続", CheatsheetCategory::Network));
    r.push(entry("docker network inspect <name>", "Inspect network details", "ネットワークの詳細を確認", CheatsheetCategory::Network));
    r.push(entry("docker volume ls", "List volumes", "ボリュームを一覧表示", CheatsheetCategory::Volume));
    r.push(entry("docker volume create <name>", "Create a volume", "ボリュームを作成", CheatsheetCategory::Volume));
    r.push(entry("docker volume rm <name>", "Remove a volume", "ボリュームを削除", CheatsheetCategory::Volume));
    r.push(entry("docker volume prune", "Remove unused volumes", "未使用のボリュームを削除", CheatsheetCategory::Volume));
    r.push(entry("docker compose up", "Start services with Compose", "Composeでサービスを起動", CheatsheetCategory::Container));
    r.push(entry("docker compose up -d", "Start services in background", "バックグラウンドでサービスを起動", CheatsheetCategory::Container));
    r.push(entry("docker compose down", "Stop and remove services", "サービスを停止して削除", CheatsheetCategory::Container));
    r.push(entry("docker compose logs", "View Compose logs", "Composeのログを表示", CheatsheetCategory::Container));
    r.push(entry("docker system prune", "Remove all unused data", "未使用のデータをすべて削除", CheatsheetCategory::Image));
    assert(cheat_views(r@) =~= docker_table());
    r
}


/// The commands of Kubernetes, in the order listed.
pub open spec fn kubernetes_table() -> Seq<CheatView> {
    seq![
        cs("kubectl get pods", "List all pods", "すべてのPodを一覧表示", CheatsheetCategory::Pod),
        cs("kubectl get pods -A", "List pods in all namespaces", "すべての名前空間のPodを表示", CheatsheetCategory::Pod),
        cs("kubectl describe pod <name>", "Show pod details", "Podの詳細を表示", CheatsheetCategory::Pod),
        cs("kubectl logs <pod>", "View pod logs", "Podのログを表示", CheatsheetCategory::Pod),
        cs("kubectl logs -f <pod>", "Follow pod logs", "Podのログをフォロー", CheatsheetCategory::Pod),
        cs("kubectl exec -it <pod> -- /bin/bash", "Execute command in pod", "Pod内でコマンドを実行", CheatsheetCategory::Pod),
        cs("kubectl delete pod <name>", "Delete a pod", "Podを削除", CheatsheetCategory::Pod),
        cs("kubectl top pods", "Show pod resource usage", "Podのリソース使用量を表示", CheatsheetCategory::Pod),
        cs("kubectl port-forward <pod> 8080:80", "Forward a local port to pod", "ローカルポートをPodに転送", CheatsheetCategory::Pod),
        cs("kubectl get svc", "List all services", "すべてのServiceを一覧表示", CheatsheetCategory::Service),
        cs("kubectl expose deployment <name> --port=80", "Expose a deployment as service", "DeploymentをServiceとして公開", CheatsheetCategory::Service),
        cs("kubectl describe svc <name>", "Show service details", "Serviceの詳細を表示", CheatsheetCategory::Service),
        cs("kubectl get endpoints", "List endpoints", "エンドポイントを一覧表示", CheatsheetCategory::Service),
        cs("kubectl get ingress", "List ingress resources", "Ingressリソースを一覧表示", CheatsheetCategory::Service),
        cs("kubectl get deployments", "List all deployments", "すべてのDeploymentを一覧表示", CheatsheetCategory::Deployment),
        cs("kubectl create deployment <name> --image=<image>", "Create a deployment", "Deploymentを作成", CheatsheetCategory::Deployment),
        cs("kubectl scale deployment <name> --replicas=3", "Scale a deployment", "Deploymentをスケール", CheatsheetCategory::Deployment),
        cs("kubectl rollout status deployment/<name>", "Check rollout status", "ロールアウトの状態を確認", CheatsheetCategory::Deployment),
        cs("kubectl rollout undo deployment/<name>", "Rollback a deployment", "Deploymentをロールバック", CheatsheetCategory::Deployment),
        cs("kubectl set image deployment/<name> <container>=<image>", "Update container image", "コンテナイメージを更新", CheatsheetCategory::Deployment),
        cs("kubectl rollout history deployment/<name>", "View rollout history", "ロールアウト履歴を表示", CheatsheetCategory::Deployment),
        cs("kubectl apply -f <file.yaml>", "Apply a configuration", "設定を適用", CheatsheetCategory::Config),
        cs("kubectl delete -f <file.yaml>", "Delete from configuration", "設定からリソースを削除", CheatsheetCategory::Config),
        cs("kubectl get configmap", "List ConfigMaps", "ConfigMapを一覧表示", CheatsheetCategory::Config),
        cs("kubectl get secrets", "List secrets", "Secretを一覧表示", CheatsheetCategory::Config),
        cs("kubectl get namespaces", "List namespaces", "名前空間を一覧表示", CheatsheetCategory::Config),
        cs("kubectl config get-contexts", "List contexts", "コンテキストを一覧表示", CheatsheetCategory::Config),
        cs("kubectl config use-context <name>", "Switch context", "コンテキストを切り替え", CheatsheetCategory::Config),
        cs("kubectl get nodes", "List cluster nodes", "クラスタのノードを一覧表示", CheatsheetCategory::Config),
    ]
}

/// The commands of Kubernetes, in the order listed.
pub fn get_kubernetes_cheatsheet() -> (r: Vec<CheatsheetEntry>)
    ensures
        cheat_views(r@) == kubernetes_table(),
{
    let mut r: Vec<CheatsheetEntry> = Vec::new();
    r.push(entry("kubectl get pods", "List all pods", "すべてのPodを一覧表示", CheatsheetCategory::Pod));
    r.push(entry("kubectl get pods -A", "List pods in all namespaces", "すべての名前空間のPodを表示", CheatsheetCategory::Pod));
    r.push(entry("kubectl describe pod <name>", "Show pod details", "Podの詳細を表示", CheatsheetCategory::Pod));
    r.push(entry("kubectl logs <pod>", "View pod logs", "Podのログを表示", CheatsheetCategory::Pod));
    r.push(entry("kubectl logs -f <pod>", "Follow pod logs", "Podのログをフォロー", CheatsheetCategory::Pod));
    r.push(entry("kubectl exec -it <pod> -- /bin/bash", "Execute command in pod", "Pod内でコマンドを実行", CheatsheetCategory::Pod));
    r.push(entry("kubectl delete pod <name>", "Delete a pod", "Podを削除", CheatsheetCategory::Pod));
    r.push(entry("kubectl top pods", "Show pod resource usage", "Podのリソース使用量を表示", CheatsheetCategory::Pod));
    r.push(entry("kubectl port-forward <pod> 8080:80", "Forward a local port to pod", "ローカルポートをPodに転送", CheatsheetCategory::Pod));
    r.push(entry("kubectl get svc", "List all services", "すべてのServiceを一覧表示", CheatsheetCategory::Service));
    r.push(entry("kubectl expose deployment <name> --port=80", "Expose a deployment as service", "DeploymentをServiceとして公開", CheatsheetCategory::Service));
    r.push(entry("kubectl describe svc <name>", "Show service details", "Serviceの詳細を表示", CheatsheetCategory::Service));
    r.push(entry("kubectl get endpoints", "List endpoints", "エンドポイントを一覧表示", CheatsheetCategory::Service));
    r.push(entry("kubectl get ingress", "List ingress resources", "Ingressリソースを一覧表示", CheatsheetCategory::Service));
    r.push(entry("kubectl get deployments", "List all deployments", "すべてのDeploymentを一覧表示", CheatsheetCategory::Deployment));
    r.push(entry("kubectl create deployment <name> --image=<image>", "Create a deployment", "Deploymentを作成", CheatsheetCategory::Deployment));
    r.push(entry("kubectl scale deployment <name> --replicas=3", "Scale a deployment", "Deploymentをスケール", CheatsheetCategory::Deployment));
    r.push(entry("kubectl rollout status deployment/<name>", "Check rollout status", "ロールアウトの状態を確認", CheatsheetCategory::Deployment));
    r.push(entry("kubectl rollout undo deployment/<name>", "Rollback a deployment", "Deploymentをロールバック", CheatsheetCategory::Deployment));
    r.push(entry("kubectl set image deployment/<name> <container>=<image>", "Update container image", "コンテナイメージを更新", CheatsheetCategory::Deployment));
    r.push(entry("kubectl rollout history deployment/<name>", "View rollout history", "ロールアウト履歴を表示", CheatsheetCategory::Deployment));
    r.push(entry("kubectl apply -f <file.yaml>", "Apply a configuration", "設定を適用", CheatsheetCategory::Config));
    r.push(entry("kubectl delete -f <file.yaml>", "Delete from configuration", "設定からリソースを削除", CheatsheetCategory::Config));
    r.push(entry("kubectl get configmap", "List ConfigMaps", "ConfigMapを一覧表示", CheatsheetCategory::Config));
    r.push(entry("kubectl get secrets", "List secrets", "Secretを一覧表示", CheatsheetCategory::Config));
    r.push(entry("kubectl get namespaces", "List namespaces", "名前空間を一覧表示", CheatsheetCategory::Config));
    r.push(entry("kubectl config get-contexts", "List contexts", "コンテキストを一覧表示", CheatsheetCategory::Config));
    r.push(entry("kubectl config use-context <name>", "Switch context", "コンテキストを切り替え", CheatsheetCategory::Config));
    r.push(entry("kubectl get nodes", "List cluster nodes", "クラスタのノードを一覧表示", CheatsheetCategory::Config));
    assert(cheat_views(r@) =~= kubernetes_table());
    r
}


/// The commands of tmux, in the order listed.
pub open spec fn tmux_table() -> Seq<CheatView> {
    seq![
        cs("tmux new -s <name>", "Create a new session", "新しいセッションを作成", CheatsheetCategory::Session),
        cs("tmux ls", "List sessions", "セッション一覧を表示", CheatsheetCategory::Session),
        cs("tmux attach -t <name>", "Attach to a session", "セッションにアタッチ", CheatsheetCategory::Session),
        cs("tmux kill-session -t <name>", "Kill a session", "セッションを終了", CheatsheetCategory::Session),
        cs("Ctrl+B, D", "Detach from session", "セッションからデタッチ", CheatsheetCategory::Session),
        cs("Ctrl+B, $", "Rename session", "セッション名を変更", CheatsheetCategory::Session),
        cs("Ctrl+B, S", "List sessions (interactive)", "セッション一覧（インタラクティブ）", CheatsheetCategory::Session),
        cs("Ctrl+B, C", "Create a new window", "新しいウィンドウを作成", CheatsheetCategory::Window),
        cs("Ctrl+B, N", "Next window", "次のウィンドウ", CheatsheetCategory::Window),
        cs("Ctrl+B, P", "Previous window", "前のウィンドウ", CheatsheetCategory::Window),
        cs("Ctrl+B, <number>", "Switch to window by number", "番号でウィンドウを切り替え", CheatsheetCategory::Window),
        cs("Ctrl+B, ,", "Rename current window", "現在のウィンドウ名を変更", CheatsheetCategory::Window),
        cs("Ctrl+B, &", "Close current window", "現在のウィンドウを閉じる", CheatsheetCategory::Window),
        cs("Ctrl+B, W", "List windows (interactive)", "ウィンドウ一覧（インタラクティブ）", CheatsheetCategory::Window),
        cs("Ctrl+B, %", "Split pane vertically", "ペインを垂直に分割", CheatsheetCategory::Pane),
        cs("Ctrl+B, \"", "Split pane horizontally", "ペインを水平に分割", CheatsheetCategory::Pane),
        cs("Ctrl+B, Arrow", "Move between panes", "ペイン間を移動", CheatsheetCategory::Pane),
        cs("Ctrl+B, X", "Close current pane", "現在のペインを閉じる", CheatsheetCategory::Pane),
        cs("Ctrl+B, Z", "Toggle pane zoom", "ペインのズームを切り替え", CheatsheetCategory::Pane),
        cs("Ctrl+B, {", "Move pane left", "ペインを左に移動", CheatsheetCategory::Pane),
        cs("Ctrl+B, }", "Move pane right", "ペインを右に移動", CheatsheetCategory::Pane),
        cs("Ctrl+B, Space", "Toggle pane layouts", "ペインレイアウトを切り替え", CheatsheetCategory::Pane),
        cs("Ctrl+B, [", "Enter copy mode", "コピーモードに入る", CheatsheetCategory::Navigation),
        cs("Ctrl+B, ]", "Paste buffer", "バッファを貼り付け", CheatsheetCategory::Navigation),
        cs("Ctrl+B, :", "Enter command mode", "コマンドモードに入る", CheatsheetCategory::Navigation),
        cs("Ctrl+B, ?", "List key bindings", "キーバインド一覧を表示", CheatsheetCategory::Navigation),
        cs("Ctrl+B, T", "Show time", "時刻を表示", CheatsheetCategory::Navigation),
    ]
}

/// The commands of tmux, in the order listed.
pub fn get_tmux_cheatsheet() -> (r: Vec<CheatsheetEntry>)
    ensures
        cheat_views(r@) == tmux_table(),
{
    let mut r: Vec<CheatsheetEntry> = Vec::new();
    r.push(entry("tmux new -s <name>", "Create a new session", "新しいセッションを作成", CheatsheetCategory::Session));
    r.push(entry("tmux ls", "List sessions", "セッション一覧を表示", CheatsheetCategory::Session));
    r.push(entry("tmux attach -t <name>", "Attach to a session", "セッションにアタッチ", CheatsheetCategory::Session));
    r.push(entry("tmux kill-session -t <name>", "Kill a session", "セッションを終了", CheatsheetCategory::Session));
    r.push(entry("Ctrl+B, D", "Detach from session", "セッションからデタッチ", CheatsheetCategory::Session));
    r.push(entry("Ctrl+B, $", "Rename session", "セッション名を変更", CheatsheetCategory::Session));
    r.push(entry("Ctrl+B, S", "List sessions (interactive)", "セッション一覧（インタラクティブ）", CheatsheetCategory::Session));
    r.push(entry("Ctrl+B, C", "Create a new window", "新しいウィンドウを作成", CheatsheetCategory::Window));
    r.push(entry("Ctrl+B, N", "Next window", "次のウィンドウ", CheatsheetCategory::Window));
    r.push(entry("Ctrl+B, P", "Previous window", "前のウィンドウ", CheatsheetCategory::Window));
    r.push(entry("Ctrl+B, <number>", "Switch to window by number", "番号でウィンドウを切り替え", CheatsheetCategory::Window));
    r.push(entry("Ctrl+B, ,", "Rename current window", "現在のウィンドウ名を変更", CheatsheetCategory::Window));
    r.push(entry("Ctrl+B, &", "Close current window", "現在のウィンドウを閉じる", CheatsheetCategory::Window));
    r.push(entry("Ctrl+B, W", "List windows (interactive)", "ウィンドウ一覧（インタラクティブ）", CheatsheetCategory::Window));
    r.push(entry("Ctrl+B, %", "Split pane vertically", "ペインを垂直に分割", CheatsheetCategory::Pane));
    r.push(entry("Ctrl+B, \"", "Split pane horizontally", "ペインを水平に分割", CheatsheetCategory::Pane));
    r.push(entry("Ctrl+B, Arrow", "Move between panes", "ペイン間を移動", CheatsheetCategory::Pane));
    r.push(entry("Ctrl+B, X", "Close current pane", "現在のペインを閉じる", CheatsheetCategory::Pane));
    r.push(entry("Ctrl+B, Z", "Toggle pane zoom", "ペインのズームを切り替え", CheatsheetCategory::Pane));
    r.push(entry("Ctrl+B, {", "Move pane left", "ペインを左に移動", CheatsheetCategory::Pane));
    r.push(entry("Ctrl+B, }", "Move pane right", "ペインを右に移動", CheatsheetCategory::Pane));
    r.push(entry("Ctrl+B, Space", "Toggle pane layouts", "ペインレイアウトを切り替え", CheatsheetCategory::Pane));
    r.push(entry("Ctrl+B, [", "Enter copy mode", "コピーモードに入る", CheatsheetCategory::Navigation));
    r.push(entry("Ctrl+B, ]", "Paste buffer", "バッファを貼り付け", CheatsheetCategory::Navigation));
    r.push(entry("Ctrl+B, :", "Enter command mode", "コマンドモードに入る", CheatsheetCategory::Navigation));
    r.push(entry("Ctrl+B, ?", "List key bindings", "キーバインド一覧を表示", CheatsheetCategory::Navigation));
    r.push(entry("Ctrl+B, T", "Show time", "時刻を表示", CheatsheetCategory::Navigation));
    assert(cheat_views(r@) =~= tmux_table());
    r
}


/// The commands of Bash, in the order listed.
pub open spec fn bash_table() -> Seq<CheatView> {
    seq![
        cs("ls -la", "List all files with details", "詳細付きですべてのファイルを表示", CheatsheetCategory::FileOps),
        cs("cd <dir>", "Change directory", "ディレクトリを変更", CheatsheetCategory::FileOps),
        cs("pwd", "Print working directory", "現在のディレクトリを表示", CheatsheetCategory::FileOps),
        cs("mkdir -p <dir>", "Create directories recursively", "ディレクトリを再帰的に作成", CheatsheetCategory::FileOps),
        cs("cp -r <src> <dest>", "Copy files/directories recursively", "ファイル/ディレクトリを再帰的にコピー", CheatsheetCategory::FileOps),
        cs("mv <src> <dest>", "Move or rename files", "ファイルの移動・名前変更", CheatsheetCategory::FileOps),
        cs("rm -rf <path>", "Remove files/directories forcefully", "ファイル/ディレクトリを強制削除", CheatsheetCategory::FileOps),
        cs("touch <file>", "Create empty file or update timestamp", "空ファイルを作成またはタイムスタンプを更新", CheatsheetCategory::FileOps),
        cs("chmod 755 <file>", "Change file permissions", "ファイルのパーミッションを変更", CheatsheetCategory::FileOps),
        cs("chown user:group <file>", "Change file owner", "ファイルの所有者を変更", CheatsheetCategory::FileOps),
        cs("find . -name \"*.txt\"", "Find files by name", "名前でファイルを検索", CheatsheetCategory::FileOps),
        cs("ln -s <target> <link>", "Create symbolic link", "シンボリックリンクを作成", CheatsheetCategory::FileOps),
        cs("tar -czf archive.tar.gz <dir>", "Create compressed archive", "圧縮アーカイブを作成", CheatsheetCategory::FileOps),
        cs("tar -xzf archive.tar.gz", "Extract compressed archive", "圧縮アーカイブを展開", CheatsheetCategory::FileOps),
        cs("cat <file>", "Display file contents", "ファイル内容を表示", CheatsheetCategory::TextProcessing),
        cs("head -n 20 <file>", "Show first N lines", "先頭N行を表示", CheatsheetCategory::TextProcessing),
        cs("tail -n 20 <file>", "Show last N lines", "末尾N行を表示", CheatsheetCategory::TextProcessing),
        cs("tail -f <file>", "Follow file in real-time", "ファイルをリアルタイムで追跡", CheatsheetCategory::TextProcessing),
        cs("grep -r \"pattern\" <dir>", "Search text recursively", "テキストを再帰的に検索", CheatsheetCategory::TextProcessing),
        cs("sed 's/old/new/g' <file>", "Replace text in file", "ファイル内のテキストを置換", CheatsheetCategory::TextProcessing),
        cs("awk '{print $1}' <file>", "Extract columns from file", "ファイルからカラムを抽出", CheatsheetCategory::TextProcessing),
        cs("sort <file>", "Sort file contents", "ファイル内容をソート", CheatsheetCategory::TextProcessing),
        cs("uniq", "Remove duplicate lines", "重複行を削除", CheatsheetCategory::TextProcessing),
        cs("wc -l <file>", "Count lines in file", "ファイルの行数をカウント", CheatsheetCategory::TextProcessing),
        cs("diff <file1> <file2>", "Compare two files", "2つのファイルを比較", CheatsheetCategory::TextProcessing),
        cs("cut -d',' -f1 <file>", "Cut columns by delimiter", "区切り文字でカラムを切り出し", CheatsheetCategory::TextProcessing),
        cs("ps aux", "List all processes", "すべてのプロセスを一覧表示", CheatsheetCategory::Process),
        cs("top", "Monitor system processes", "システムプロセスを監視", CheatsheetCategory::Process),
        cs("kill <pid>", "Terminate a process", "プロセスを終了", CheatsheetCategory::Process),
        cs("kill -9 <pid>", "Force kill a process", "プロセスを強制終了", CheatsheetCategory::Process),
        cs("bg", "Resume job in background", "ジョブをバックグラウンドで再開", CheatsheetCategory::Process),
        cs("fg", "Bring job to foreground", "ジョブをフォアグラウンドに移行", CheatsheetCategory::Process),
        cs("jobs", "List background jobs", "バックグラウンドジョブを一覧表示", CheatsheetCategory::Process),
        cs("nohup <command> &", "Run command immune to hangup", "ハングアップに影響されないコマンドを実行", CheatsheetCategory::Process),
        cs("lsof -i :<port>", "Find process using a port", "ポートを使用しているプロセスを検索", CheatsheetCategory::Process),
        cs("cd ~", "Go to home directory", "ホームディレクトリに移動", CheatsheetCategory::Navigation),
        cs("cd -", "Go to previous directory", "前のディレクトリに移動", CheatsheetCategory::Navigation),
        cs("pushd <dir>", "Push directory to stack", "ディレクトリをスタックにプッシュ", CheatsheetCategory::Navigation),
        cs("popd", "Pop directory from stack", "スタックからディレクトリをポップ", CheatsheetCategory::Navigation),
        cs("which <command>", "Show command location", "コマンドの場所を表示", CheatsheetCategory::Navigation),
        cs("alias ll='ls -la'", "Create a command alias", "コマンドのエイリアスを作成", CheatsheetCategory::Navigation),
        cs("history", "Show command history", "コマンド履歴を表示", CheatsheetCategory::Navigation),
        cs("!!", "Repeat last command", "最後のコマンドを繰り返す", CheatsheetCategory::Navigation),
        cs("export VAR=value", "Set environment variable", "環境変数を設定", CheatsheetCategory::Navigation),
        cs("echo $VAR", "Print environment variable", "環境変数を表示", CheatsheetCategory::Navigation),
    ]
}

/// The commands of Bash, in the order listed.
pub fn get_bash_cheatsheet() -> (r: Vec<CheatsheetEntry>)
    ensures
        cheat_views(r@) == bash_table(),
{
    let mut r: Vec<CheatsheetEntry> = Vec::new();
    r.push(entry("ls -la", "List all files with details", "詳細付きですべてのファイルを表示", CheatsheetCategory::FileOps));
    r.push(entry("cd <dir>", "Change directory", "ディレクトリを変更", CheatsheetCategory::FileOps));
    r.push(entry("pwd", "Print working directory", "現在のディレクトリを表示", CheatsheetCategory::FileOps));
    r.push(entry("mkdir -p <dir>", "Create directories recursively", "ディレクトリを再帰的に作成", CheatsheetCategory::FileOps));
    r.push(entry("cp -r <src> <dest>", "Copy files/directories recursively", "ファイル/ディレクトリを再帰的にコピー", CheatsheetCategory::FileOps));
    r.push(entry("mv <src> <dest>", "Move or rename files", "ファイルの移動・名前変更", CheatsheetCategory::FileOps));
    r.push(entry("rm -rf <path>", "Remove files/directories forcefully", "ファイル/ディレクトリを強制削除", CheatsheetCategory::FileOps));
    r.push(entry("touch <file>", "Create empty file or update timestamp", "空ファイルを作成またはタイムスタンプを更新", CheatsheetCategory::FileOps));
    r.push(entry("chmod 755 <file>", "Change file permissions", "ファイルのパーミッションを変更", CheatsheetCategory::FileOps));
    r.push(entry("chown user:group <file>", "Change file owner", "ファイルの所有者を変更", CheatsheetCategory::FileOps));
    r.push(entry("find . -name \"*.txt\"", "Find files by name", "名前でファイルを検索", CheatsheetCategory::FileOps));
    r.push(entry("ln -s <target> <link>", "Create symbolic link", "シンボリックリンクを作成", CheatsheetCategory::FileOps));
    r.push(entry("tar -czf archive.tar.gz <dir>", "Create compressed archive", "圧縮アーカイブを作成", CheatsheetCategory::FileOps));
    r.push(entry("tar -xzf archive.tar.gz", "Extract compressed archive", "圧縮アーカイブを展開", CheatsheetCategory::FileOps));
    r.push(entry("cat <file>", "Display file contents", "ファイル内容を表示", CheatsheetCategory::TextProcessing));
    r.push(entry("head -n 20 <file>", "Show first N lines", "先頭N行を表示", CheatsheetCategory::TextProcessing));
    r.push(entry("tail -n 20 <file>", "Show last N lines", "末尾N行を表示", CheatsheetCategory::TextProcessing));
    r.push(entry("tail -f <file>", "Follow file in real-time", "ファイルをリアルタイムで追跡", CheatsheetCategory::TextProcessing));
    r.push(entry("grep -r \"pattern\" <dir>", "Search text recursively", "テキストを再帰的に検索", CheatsheetCategory::TextProcessing));
    r.push(entry("sed 's/old/new/g' <file>", "Replace text in file", "ファイル内のテキストを置換", CheatsheetCategory::TextProcessing));
    r.push(entry("awk '{print $1}' <file>", "Extract columns from file", "ファイルからカラムを抽出", CheatsheetCategory::TextProcessing));
    r.push(entry("sort <file>", "Sort file contents", "ファイル内容をソート", CheatsheetCategory::TextProcessing));
    r.push(entry("uniq", "Remove duplicate lines", "重複行を削除", CheatsheetCategory::TextProcessing));
    r.push(entry("wc -l <file>", "Count lines in file", "ファイルの行数をカウント", CheatsheetCategory::TextProcessing));
    r.push(entry("diff <file1> <file2>", "Compare two files", "2つのファイルを比較", CheatsheetCategory::TextProcessing));
    r.push(entry("cut -d',' -f1 <file>", "Cut columns by delimiter", "区切り文字でカラムを切り出し", CheatsheetCategory::TextProcessing));
    r.push(entry("ps aux", "List all processes", "すべてのプロセスを一覧表示", CheatsheetCategory::Process));
    r.push(entry("top", "Monitor system processes", "システムプロセスを監視", CheatsheetCategory::Process));
    r.push(entry("kill <pid>", "Terminate a process", "プロセスを終了", CheatsheetCategory::Process));
    r.push(entry("kill -9 <pid>", "Force kill a process", "プロセスを強制終了", CheatsheetCategory::Process));
    r.push(entry("bg", "Resume job in background", "ジョブをバックグラウンドで再開", CheatsheetCategory::Process));
    r.push(entry("fg", "Bring job to foreground", "ジョブをフォアグラウンドに移行", CheatsheetCategory::Process));
    r.push(entry("jobs", "List background jobs", "バックグラウンドジョブを一覧表示", CheatsheetCategory::Process));
    r.push(entry("nohup <command> &", "Run command immune to hangup", "ハングアップに影響されないコマンドを実行", CheatsheetCategory::Process));
    r.push(entry("lsof -i :<port>", "Find process using a port", "ポートを使用しているプロセスを検索", CheatsheetCategory::Process));
    r.push(entry("cd ~", "Go to home directory", "ホームディレクトリに移動", CheatsheetCategory::Navigation));
    r.push(entry("cd -", "Go to previous directory", "前のディレクトリに移動", CheatsheetCategory::Navigation));
    r.push(entry("pushd <dir>", "Push directory to stack", "ディレクトリをスタックにプッシュ", CheatsheetCategory::Navigation));
    r.push(entry("popd", "Pop directory from stack", "スタックからディレクトリをポップ", CheatsheetCategory::Navigation));
    r.push(entry("which <command>", "Show command location", "コマンドの場所を表示", CheatsheetCategory::Navigation));
    r.push(entry("alias ll='ls -la'", "Create a command alias", "コマンドのエイリアスを作成", CheatsheetCategory::Navigation));
    r.push(entry("history", "Show command history", "コマンド履歴を表示", CheatsheetCategory::Navigation));
    r.push(entry("!!", "Repeat last command", "最後のコマンドを繰り返す", CheatsheetCategory::Navigation));
    r.push(entry("export VAR=value", "Set environment variable", "環境変数を設定", CheatsheetCategory::Navigation));
    r.push(entry("echo $VAR", "Print environment variable", "環境変数を表示", CheatsheetCategory::Navigation));
    assert(cheat_views(r@) =~= bash_table());
    r
}


/// The commands of a tool.
pub open spec fn cheatsheet_of(tool: ToolType) -> Seq<CheatView> {
    match tool {
        ToolType::Git => git_table(),
        ToolType::Docker => docker_table(),
        ToolType::Kubernetes => kubernetes_table(),
        ToolType::Tmux => tmux_table(),
        ToolType::Bash => bash_table(),
    }
}

/// The commands of a tool.
pub fn get_cheatsheet(tool: ToolType) -> (r: Vec<CheatsheetEntry>)
    ensures
        cheat_views(r@) == cheatsheet_of(tool),
{
    match tool {
        ToolType::Git => get_git_cheatsheet(),
        ToolType::Docker => get_docker_cheatsheet(),
        ToolType::Kubernetes => get_kubernetes_cheatsheet(),
        ToolType::Tmux => get_tmux_cheatsheet(),
        ToolType::Bash => get_bash_cheatsheet(),
    }
}

/// The description of a command in a language: Japanese for `ja`, else English.
pub open spec fn desc_for(e: CheatView, lang: Seq<char>) -> Seq<char> {
    if lang == "ja"@ {
        e.desc_ja
    } else {
        e.desc_en
    }
}

/// The description of a command in a language.
pub fn get_desc_for_lang(e: &CheatsheetEntry, lang: &str) -> (s: String)
    ensures
        s@ == desc_for(e@, lang@),
{
    if same_text(lang, "ja") {
        e.desc_ja.to_string()
    } else {
        e.desc_en.to_string()
    }
}

/// Whether a command is listed: it is in the chosen group (any for `All`),
/// and for a search, its description in the page's language, its English
/// description or the command contain the search, all lower-cased.
pub open spec fn cheat_shown(e: CheatView, category: CheatsheetCategory, query: Seq<char>, lang: Seq<char>) -> bool {
    &&& (category == CheatsheetCategory::All || e.category == category)
    &&& (query.len() > 0 ==> {
        let q = lower(query);
        contains(lower(desc_for(e, lang)), q) || contains(lower(e.desc_en), q) || contains(
            lower(e.command),
            q,
        )
    })
}

/// The places, in order, of the listed commands.
pub open spec fn shown_commands(
    es: Seq<CheatView>,
    category: CheatsheetCategory,
    query: Seq<char>,
    lang: Seq<char>,
) -> Seq<nat>
    decreases es.len(),
{
    if es.len() == 0 {
        Seq::empty()
    } else {
        let rest = shown_commands(es.drop_last(), category, query, lang);
        if cheat_shown(es.last(), category, query, lang) {
            rest.push((es.len() - 1) as nat)
        } else {
            rest
        }
    }
}

/// Every listed place is a place of the list, and the entry at place `k` is
/// listed exactly when `cheat_shown` holds of it.
proof fn lemma_shown_commands_members(
    es: Seq<CheatView>,
    category: CheatsheetCategory,
    query: Seq<char>,
    lang: Seq<char>,
)
    ensures
        forall|j: int|
            0 <= j < shown_commands(es, category, query, lang).len() ==> #[trigger] shown_commands(es, category, query, lang)[j]
                < es.len(),
        forall|k: int|
            0 <= k < es.len() ==> (shown_commands(es, category, query, lang).contains(k as nat) <==> cheat_shown(
                #[trigger] es[k],
                category, query, lang,
            )),
    decreases es.len(),
{
    if es.len() > 0 {
        let init = es.drop_last();
        let rest = shown_commands(init, category, query, lang);
        lemma_shown_commands_members(init, category, query, lang);
        let r = shown_commands(es, category, query, lang);
        assert forall|j: int| 0 <= j < r.len() implies #[trigger] r[j] < es.len() by {
            if j < rest.len() {
                assert(r[j] == rest[j]);
            }
        }
        assert forall|k: int| 0 <= k < es.len() implies (r.contains(k as nat) <==> cheat_shown(
            #[trigger] es[k],
            category, query, lang,
        )) by {
            if k < es.len() - 1 {
                assert(init[k] == es[k]);
                if rest.contains(k as nat) {
                    let j = choose|j: int| 0 <= j < rest.len() && rest[j] == k as nat;
                    assert(r[j] == rest[j]);
                }
                if r.contains(k as nat) {
                    let j = choose|j: int| 0 <= j < r.len() && r[j] == k as nat;
                    if j < rest.len() {
                        assert(r[j] == rest[j]);
                    }
                }
            } else {
                if cheat_shown(es.last(), category, query, lang) {
                    assert(r[r.len() - 1] == k as nat);
                } else if r.contains(k as nat) {
                    let j = choose|j: int| 0 <= j < r.len() && r[j] == k as nat;
                    assert(r[j] == rest[j]);
                }
            }
        }
    }
}

/// The command at place `k` is listed exactly when it is in the chosen group
/// (any for `All`) and, for a search, its English description, its Japanese
/// description on a Japanese page, or the command itself holds the search,
/// all compared in lower case.
pub proof fn law_commands_listed(
    es: Seq<CheatView>,
    category: CheatsheetCategory,
    query: Seq<char>,
    lang: Seq<char>,
    k: int,
)
    requires
        0 <= k < es.len(),
    ensures
        shown_commands(es, category, query, lang).contains(k as nat) <==> {
            &&& (category == CheatsheetCategory::All || es[k].category == category)
            &&& (query.len() == 0 || contains(lower(es[k].desc_en), lower(query)) || (lang
                == "ja"@ && contains(lower(es[k].desc_ja), lower(query))) || contains(
                lower(es[k].command),
                lower(query),
            ))
        },
{
    lemma_shown_commands_members(es, category, query, lang);
    assert(cheat_shown(es[k], category, query, lang) == shown_commands(es, category, query, lang).contains(k as nat));
}

/// Whether one command is listed.
fn is_shown(e: &CheatsheetEntry, category: CheatsheetCategory, query: &str, lang: &str) -> (b: bool)
    ensures
        b == cheat_shown(e@, category, query@, lang@),
{
    if category != CheatsheetCategory::All && e.category != category {
        return false;
    }
    if !query.is_empty() {
        let q = lowercase(query);
        let desc = lowercase(get_desc_for_lang(e, lang).as_str());
        let desc_en = lowercase(e.desc_en);
        let cmd = lowercase(e.command);
        return contains_str(desc.as_str(), q.as_str()) || contains_str(desc_en.as_str(), q.as_str())
            || contains_str(cmd.as_str(), q.as_str());
    }
    true
}

/// The places of the listed commands.
pub fn filter_commands(
    entries: &Vec<CheatsheetEntry>,
    category: CheatsheetCategory,
    query: &str,
    lang: &str,
) -> (r: Vec<usize>)
    ensures
        r@.map_values(|i: usize| i as nat) == shown_commands(
            cheat_views(entries@),
            category,
            query@,
            lang@,
        ),
{
    let ghost ev = cheat_views(entries@);
    let mut r: Vec<usize> = Vec::new();
    let mut i: usize = 0;
    while i < entries.len()
        invariant
            i <= entries.len(),
            ev == cheat_views(entries@),
            r@.map_values(|k: usize| k as nat) == shown_commands(ev.take(i as int), category, query@, lang@),
        decreases entries.len() - i,
    {
        assert(ev.take(i + 1).drop_last() =~= ev.take(i as int));
        assert(ev.take(i + 1).last() == entries@[i as int]@);
        if is_shown(&entries[i], category, query, lang) {
            let ghost before = r@;
            r.push(i);
            assert(r@.map_values(|k: usize| k as nat) =~= before.map_values(|k: usize| k as nat).push(
                i as nat,
            ));
        }
        i += 1;
    }
    assert(ev.take(entries.len() as int) =~= ev);
    r
}

/// The viewer's choices: tool, group and search.
#[derive(Clone)]
pub struct CheatsheetState {
    pub tool: ToolType,
    pub category: CheatsheetCategory,
    pub search_query: String,
    pub copied_index: Option<usize>,
    pub favorites: Vec<String>,
}

/// `fs` without any copy of `c`, in order.
pub open spec fn drop_all(fs: Seq<Seq<char>>, c: Seq<char>) -> Seq<Seq<char>>
    decreases fs.len(),
{
    if fs.len() == 0 {
        fs
    } else if fs.last() != c {
        drop_all(fs.drop_last(), c).push(fs.last())
    } else {
        drop_all(fs.drop_last(), c)
    }
}

/// The favourites after the star of `command` was clicked: a favourite loses
/// every copy of it, any other command joins the end.
pub open spec fn toggled_favorites(fs: Seq<Seq<char>>, command: Seq<char>) -> Seq<Seq<char>> {
    if fs.contains(command) {
        drop_all(fs, command)
    } else {
        fs.push(command)
    }
}

impl CheatsheetState {
    /// Git, every group, no search, no favourites.
    pub fn new() -> (s: CheatsheetState)
        ensures
            s.tool == ToolType::Git,
            s.category == CheatsheetCategory::All,
            s.search_query@.len() == 0,
            s.copied_index is None,
            s.favorites@.len() == 0,
    {
        CheatsheetState {
            tool: ToolType::Git,
            category: CheatsheetCategory::All,
            search_query: String::new(),
            copied_index: None,
            favorites: Vec::new(),
        }
    }

    /// Another tool: its commands in every group.
    pub fn select_tool(&mut self, tool: ToolType)
        ensures
            *final(self) == (CheatsheetState {
                category: final(self).category,
                tool: final(self).tool,
                ..*old(self)
            }),
            final(self).tool == tool,
            final(self).category == CheatsheetCategory::All,
            final(self).search_query == old(self).search_query,
    {
        self.tool = tool;
        self.category = CheatsheetCategory::All;
    }

    /// Whether `command` is a favourite.
    pub fn is_favorite(&self, command: &str) -> (b: bool)
        ensures
            b == string_views(self.favorites@).contains(command@),
    {
        let ghost fv = string_views(self.favorites@);
        let mut i: usize = 0;
        while i < self.favorites.len()
            invariant
                i <= self.favorites.len(),
                fv == string_views(self.favorites@),
                forall|j: int| 0 <= j < i ==> fv[j] != command@,
            decreases self.favorites.len() - i,
        {
            if same_text(self.favorites[i].as_str(), command) {
                assert(fv[i as int] == command@);
                return true;
            }
            i += 1;
        }
        false
    }

    /// The star of `command` was clicked.
    pub fn toggle_favorite(&mut self, command: &str)
        ensures
            *final(self) == (CheatsheetState { favorites: final(self).favorites, ..*old(self) }),
            string_views(final(self).favorites@) == toggled_favorites(
                string_views(old(self).favorites@),
                command@,
            ),
    {
        let ghost fv = string_views(self.favorites@);
        if self.is_favorite(command) {
            let mut kept: Vec<String> = Vec::new();
            let mut i: usize = 0;
            while i < self.favorites.len()
                invariant
                    i <= self.favorites.len(),
                    fv == string_views(self.favorites@),
                    string_views(kept@) == drop_all(fv.take(i as int), command@),
                decreases self.favorites.len() - i,
            {
                let ghost before = kept@;
                assert(fv.take(i + 1).drop_last() =~= fv.take(i as int));
                assert(fv.take(i + 1).last() == fv[i as int]);
                if !same_text(self.favorites[i].as_str(), command) {
                    let c = self.favorites[i].clone();
                    kept.push(c);
                    assert(string_views(kept@) =~= string_views(before).push(c@));
                }
                i += 1;
            }
            assert(fv.take(self.favorites.len() as int) =~= fv);
            self.favorites = kept;
        } else {
            let ghost before = self.favorites@;
            self.favorites.push(command.to_string());
            assert(string_views(self.favorites@) =~= fv.push(command@));
        }
    }
}

/// What `drop_all` keeps: exactly the other values.
proof fn lemma_drop_all(fs: Seq<Seq<char>>, c: Seq<char>)
    ensures
        forall|x: Seq<char>| #[trigger] drop_all(fs, c).contains(x) <==> (fs.contains(x) && x != c),
        !fs.contains(c) ==> drop_all(fs, c) == fs,
    decreases fs.len(),
{
    if fs.len() > 0 {
        let p = fs.drop_last();
        lemma_drop_all(p, c);
        let d = drop_all(p, c);
        assert forall|x: Seq<char>| #[trigger] drop_all(fs, c).contains(x) <==> (fs.contains(x) && x != c) by {
            if fs.contains(x) && x != c {
                let k = choose|k: int| 0 <= k < fs.len() && fs[k] == x;
                if k < fs.len() - 1 {
                    assert(p[k] == x);
                    assert(p.contains(x));
                    assert(d.contains(x));
                    let j = choose|j: int| 0 <= j < d.len() && d[j] == x;
                    if fs.last() != c {
                        assert(d.push(fs.last())[j] == x);
                    }
                } else {
                    assert(fs.last() == x);
                    assert(d.push(fs.last())[d.len() as int] == x);
                }
            }
            if drop_all(fs, c).contains(x) {
                let j = choose|j: int| 0 <= j < drop_all(fs, c).len() && drop_all(fs, c)[j] == x;
                if fs.last() != c && j == d.len() {
                    assert(fs[fs.len() - 1] == x);
                } else {
                    assert(d[j] == x);
                    assert(d.contains(x));
                    assert(p.contains(x));
                    let k = choose|k: int| 0 <= k < p.len() && p[k] == x;
                    assert(fs[k] == x);
                }
            }
        }
        if !fs.contains(c) {
            assert(!p.contains(c)) by {
                if p.contains(c) {
                    let k = choose|k: int| 0 <= k < p.len() && p[k] == c;
                    assert(fs[k] == c);
                }
            }
            assert(fs[fs.len() - 1] != c);
            assert(p.push(fs.last()) =~= fs);
        }
    }
}

/// Clicking a star twice gives back the same set of favourites.
pub proof fn law_favorite_twice(fs: Seq<Seq<char>>, command: Seq<char>)
    ensures
        toggled_favorites(toggled_favorites(fs, command), command).to_set() == fs.to_set(),
{
    let once = toggled_favorites(fs, command);
    let twice = toggled_favorites(once, command);
    if fs.contains(command) {
        lemma_drop_all(fs, command);
        assert(!once.contains(command));
        assert forall|x: Seq<char>| #[trigger] twice.to_set().contains(x) <==> fs.to_set().contains(x) by {
            if x == command {
                assert(twice[twice.len() - 1] == x);
                assert(twice.contains(x));
            } else {
                if twice.contains(x) {
                    let j = choose|j: int| 0 <= j < twice.len() && twice[j] == x;
                    assert(j < once.len());
                    assert(once[j] == x);
                    assert(once.contains(x));
                }
                if fs.contains(x) {
                    assert(once.contains(x));
                    let j = choose|j: int| 0 <= j < once.len() && once[j] == x;
                    assert(twice[j] == x);
                    assert(twice.contains(x));
                }
            }
        }
        assert(twice.to_set() =~= fs.to_set());
    } else {
        assert(once.contains(command)) by {
            assert(once[fs.len() as int] == command);
        }
        lemma_drop_all(fs, command);
        assert(once.drop_last() =~= fs);
        assert(twice == fs);
    }
}

} // verus!
